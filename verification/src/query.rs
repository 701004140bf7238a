//! The query-string grammar of a request: `key=value` pairs joined by `&`,
//! with form-urlencoded escapes.
//!
//! Splitting happens before decoding, so an escaped `&` or `=` never splits;
//! then, in each key and value, `+` decodes to a space and `%` followed by
//! two hexadecimal digits to the character with that code, while an
//! incomplete escape stands as itself. An escaped byte is taken as one
//! character by its code — a value that would need a multi-byte sequence is
//! not a number or boolean and is rejected anyway.
//!
//! The recognised keys are `size`, `scale`, `border` (decimal, fitting a
//! `u32`) and `mirrored` (`true` or `false`). Unknown keys and empty
//! segments are ignored; a repeated key keeps its last value. A recognised
//! key whose value is missing, of the wrong shape or out of range makes the
//! whole query string undecodable — a request-level parse failure, answered
//! before resolution.

use vstd::prelude::*;

verus! {

use vstd::string::*;

use crate::errors::push_char;
use crate::params::RequestParams;

/// Whether `c` is a decimal digit.
pub open spec fn spec_is_digit(c: char) -> bool {
    '0' as u32 <= c as u32 && c as u32 <= '9' as u32
}

/// The numeric value of a digit.
pub open spec fn spec_digit_val(c: char) -> int {
    c as u32 - '0' as u32
}

/// Whether `c` is a hexadecimal digit, either case.
pub open spec fn spec_is_hex(c: char) -> bool {
    ||| spec_is_digit(c)
    ||| 'a' as u32 <= c as u32 && c as u32 <= 'f' as u32
    ||| 'A' as u32 <= c as u32 && c as u32 <= 'F' as u32
}

/// The numeric value of a hexadecimal digit.
pub open spec fn spec_hex_val(c: char) -> int {
    if spec_is_digit(c) {
        c as u32 - '0' as u32
    } else if 'a' as u32 <= c as u32 && c as u32 <= 'f' as u32 {
        c as u32 - 'a' as u32 + 10
    } else {
        c as u32 - 'A' as u32 + 10
    }
}

/// Whether `s` consists of decimal digits only.
pub open spec fn spec_all_digits(s: Seq<char>) -> bool {
    forall|i: int| 0 <= i < s.len() ==> spec_is_digit(#[trigger] s[i])
}

/// The number a digit string denotes.
pub open spec fn spec_digits_val(s: Seq<char>) -> int
    decreases s.len(),
{
    if s.len() == 0 {
        0
    } else {
        10 * spec_digits_val(s.drop_last()) + spec_digit_val(s.last())
    }
}

/// The `u32` a value string denotes: at least one digit, digits only, and
/// within range.
pub open spec fn spec_parse_u32(s: Seq<char>) -> Option<u32> {
    if s.len() >= 1 && spec_all_digits(s) && spec_digits_val(s) <= u32::MAX {
        Some(spec_digits_val(s) as u32)
    } else {
        None
    }
}

/// The boolean a value string denotes: exactly `true` or `false`.
pub open spec fn spec_parse_bool(s: Seq<char>) -> Option<bool> {
    if s == "true"@ {
        Some(true)
    } else if s == "false"@ {
        Some(false)
    } else {
        None
    }
}

/// A key or value with its form-urlencoded escapes resolved: `+` becomes a
/// space, `%` with two hexadecimal digits the character with that code, and
/// anything else — an incomplete escape included — stands as itself.
pub open spec fn spec_percent_decode(s: Seq<char>) -> Seq<char>
    decreases s.len(),
{
    if s.len() == 0 {
        Seq::empty()
    } else if s[0] == '+' {
        seq![' '] + spec_percent_decode(s.drop_first())
    } else if s[0] == '%' && s.len() >= 3 && spec_is_hex(s[1]) && spec_is_hex(s[2]) {
        seq![((16 * spec_hex_val(s[1]) + spec_hex_val(s[2])) as u8) as char] + spec_percent_decode(
            s.skip(3),
        )
    } else {
        seq![s[0]] + spec_percent_decode(s.drop_first())
    }
}

/// Where `stop` first occurs in `s`, or the length of `s` if it never does.
pub open spec fn spec_scan_to(s: Seq<char>, stop: char) -> int
    decreases s.len(),
{
    if s.len() == 0 {
        0
    } else if s[0] == stop {
        0
    } else {
        1 + spec_scan_to(s.drop_first(), stop)
    }
}

/// The keys this grammar recognises.
pub open spec fn spec_is_known_key(key: Seq<char>) -> bool {
    key == "size"@ || key == "scale"@ || key == "border"@ || key == "mirrored"@
}

/// What one `&`-separated segment does to the overrides collected so far:
/// nothing if it is empty or its decoded key is unknown, an update if its
/// key is recognised and its decoded value well-formed, and failure of the
/// whole query otherwise.
pub open spec fn spec_apply_segment(seg: Seq<char>, acc: RequestParams) -> Option<RequestParams> {
    if seg.len() == 0 {
        Some(acc)
    } else {
        let j = spec_scan_to(seg, '=');
        let key = spec_percent_decode(seg.take(j));
        if j == seg.len() {
            if spec_is_known_key(key) {
                None
            } else {
                Some(acc)
            }
        } else {
            let value = spec_percent_decode(seg.skip(j + 1));
            if key == "size"@ {
                match spec_parse_u32(value) {
                    Some(v) => Some(RequestParams { size: Some(v), ..acc }),
                    None => None,
                }
            } else if key == "scale"@ {
                match spec_parse_u32(value) {
                    Some(v) => Some(RequestParams { scale: Some(v), ..acc }),
                    None => None,
                }
            } else if key == "border"@ {
                match spec_parse_u32(value) {
                    Some(v) => Some(RequestParams { border: Some(v), ..acc }),
                    None => None,
                }
            } else if key == "mirrored"@ {
                match spec_parse_bool(value) {
                    Some(v) => Some(RequestParams { mirrored: Some(v), ..acc }),
                    None => None,
                }
            } else {
                Some(acc)
            }
        }
    }
}

/// The overrides a query string denotes, walked character by character:
/// `seg` is the segment read so far and `acc` the overrides collected
/// before it.
pub open spec fn spec_parse_query_from(
    s: Seq<char>,
    seg: Seq<char>,
    acc: RequestParams,
) -> Option<RequestParams>
    decreases s.len(),
{
    if s.len() == 0 {
        spec_apply_segment(seg, acc)
    } else if s[0] == '&' {
        match spec_apply_segment(seg, acc) {
            Some(acc2) => spec_parse_query_from(s.drop_first(), Seq::empty(), acc2),
            None => None,
        }
    } else {
        spec_parse_query_from(s.drop_first(), seg.push(s[0]), acc)
    }
}

/// The overrides a whole query string denotes, if it is well-formed.
pub open spec fn spec_parse_query(s: Seq<char>) -> Option<RequestParams> {
    spec_parse_query_from(
        s,
        Seq::empty(),
        RequestParams { size: None, scale: None, border: None, mirrored: None },
    )
}

/// `spec_scan_to` is exactly the index before which `stop` never occurs and
/// at which it stands unless the string ends first.
proof fn lemma_scan_to_eq(s: Seq<char>, stop: char, idx: int)
    requires
        0 <= idx <= s.len(),
        forall|k: int| 0 <= k < idx ==> s[k] != stop,
        idx < s.len() ==> s[idx] == stop,
    ensures
        spec_scan_to(s, stop) == idx,
    decreases s.len(),
{
    if idx == 0 {
    } else {
        assert(s[0] != stop);
        lemma_scan_to_eq(s.drop_first(), stop, idx - 1);
    }
}

/// Whether `a` is exactly `w`.
fn str_eq(a: &str, w: &str) -> (r: bool)
    ensures
        r == (a@ == w@),
{
    let n: usize = a.unicode_len();
    let m: usize = w.unicode_len();
    if n != m {
        return false;
    }
    let mut i: usize = 0;
    while i < m
        invariant
            i <= m,
            n == m,
            n == a@.len(),
            m == w@.len(),
            forall|k: int| 0 <= k < i ==> a@[k] == w@[k],
        decreases m - i,
    {
        if a.get_char(i) != w.get_char(i) {
            return false;
        }
        i += 1;
    }
    assert(a@ =~= w@);
    true
}

/// Whether `c` is a hexadecimal digit, and its value, executable form.
fn hex_val(c: char) -> (r: Option<u32>)
    ensures
        r is Some <==> spec_is_hex(c),
        r matches Some(v) ==> v == spec_hex_val(c) && v < 16,
{
    let u: u32 = c as u32;
    if '0' as u32 <= u && u <= '9' as u32 {
        Some(u - '0' as u32)
    } else if 'a' as u32 <= u && u <= 'f' as u32 {
        Some(u - 'a' as u32 + 10)
    } else if 'A' as u32 <= u && u <= 'F' as u32 {
        Some(u - 'A' as u32 + 10)
    } else {
        None
    }
}

/// Resolves the form-urlencoded escapes in the characters of `s` from
/// `from` to `to`.
fn decode_range(s: &str, from: usize, to: usize) -> (r: String)
    requires
        from <= to <= s@.len(),
    ensures
        r@ == spec_percent_decode(s@.subrange(from as int, to as int)),
{
    let ghost seg = s@.subrange(from as int, to as int);
    let mut out = String::new();
    let mut i: usize = from;
    proof {
        assert(seg.skip(0) =~= seg);
        assert(Seq::<char>::empty() + spec_percent_decode(seg) =~= spec_percent_decode(seg));
    }
    while i < to
        invariant
            from <= i <= to <= s@.len(),
            seg == s@.subrange(from as int, to as int),
            spec_percent_decode(seg) == out@ + spec_percent_decode(seg.skip(i - from)),
        decreases to - i,
    {
        let ghost rest = seg.skip(i - from);
        proof {
            assert(rest[0] == s@[i as int]);
            assert(rest.drop_first() =~= seg.skip(i + 1 - from));
        }
        let c = s.get_char(i);
        if c == '+' {
            push_char(&mut out, ' ');
            proof {
                assert(out@ + spec_percent_decode(seg.skip(i + 1 - from)) =~= spec_percent_decode(
                    seg,
                ));
            }
            i += 1;
        } else if c == '%' && to - i >= 3 {
            proof {
                assert(rest[1] == s@[i + 1 as int]);
                assert(rest[2] == s@[i + 2 as int]);
                assert(rest.skip(3) =~= seg.skip(i + 3 - from));
            }
            let c1 = s.get_char(i + 1);
            let c2 = s.get_char(i + 2);
            match (hex_val(c1), hex_val(c2)) {
                (Some(h1), Some(h2)) => {
                    let code: u32 = 16 * h1 + h2;
                    push_char(&mut out, (code as u8) as char);
                    proof {
                        assert(out@ + spec_percent_decode(seg.skip(i + 3 - from))
                            =~= spec_percent_decode(seg));
                    }
                    i += 3;
                },
                _ => {
                    push_char(&mut out, c);
                    proof {
                        assert(out@ + spec_percent_decode(seg.skip(i + 1 - from))
                            =~= spec_percent_decode(seg));
                    }
                    i += 1;
                },
            }
        } else {
            push_char(&mut out, c);
            proof {
                assert(out@ + spec_percent_decode(seg.skip(i + 1 - from)) =~= spec_percent_decode(
                    seg,
                ));
            }
            i += 1;
        }
    }
    proof {
        assert(seg.skip(to - from) =~= Seq::<char>::empty());
    }
    out
}

/// Parses a decoded value as a decimal `u32`.
fn parse_u32_str(v: &str) -> (r: Option<u32>)
    ensures
        r == spec_parse_u32(v@),
{
    let n: usize = v.unicode_len();
    if n == 0 {
        return None;
    }
    let mut acc: u32 = 0;
    let mut overflow: bool = false;
    let mut i: usize = 0;
    while i < n
        invariant
            i <= n,
            n == v@.len(),
            forall|k: int| 0 <= k < i ==> spec_is_digit(#[trigger] v@[k]),
            !overflow ==> acc == spec_digits_val(v@.take(i as int)),
            overflow ==> spec_digits_val(v@.take(i as int)) > u32::MAX,
        decreases n - i,
    {
        let c = v.get_char(i);
        let u: u32 = c as u32;
        if u < '0' as u32 || u > '9' as u32 {
            proof {
                assert(!spec_is_digit(v@[i as int]));
            }
            return None;
        }
        let d: u32 = u - '0' as u32;
        proof {
            let pref = v@.take(i as int);
            let ext = v@.take(i + 1 as int);
            assert(ext.drop_last() =~= pref);
            assert(ext.last() == v@[i as int]);
            if overflow {
                assert(10 * spec_digits_val(pref) + spec_digit_val(v@[i as int]) > u32::MAX);
            }
        }
        if !overflow {
            let wide: u64 = (acc as u64) * 10 + (d as u64);
            if wide > u32::MAX as u64 {
                overflow = true;
            } else {
                acc = wide as u32;
            }
        }
        i += 1;
    }
    proof {
        assert(v@.take(n as int) =~= v@);
    }
    if overflow {
        None
    } else {
        Some(acc)
    }
}

/// Parses a decoded value as a boolean.
fn parse_bool_str(v: &str) -> (r: Option<bool>)
    ensures
        r == spec_parse_bool(v@),
{
    if str_eq(v, "true") {
        Some(true)
    } else if str_eq(v, "false") {
        Some(false)
    } else {
        None
    }
}

/// Applies the segment of `s` from `from` to `to` to the overrides
/// collected so far.
fn apply_segment(s: &str, from: usize, to: usize, acc: RequestParams) -> (r: Option<RequestParams>)
    requires
        from <= to <= s@.len(),
    ensures
        r == spec_apply_segment(s@.subrange(from as int, to as int), acc),
{
    let ghost seg = s@.subrange(from as int, to as int);
    if from == to {
        return Some(acc);
    }
    let mut j: usize = from;
    while j < to && s.get_char(j) != '='
        invariant
            from <= j <= to <= s@.len(),
            seg == s@.subrange(from as int, to as int),
            forall|k: int| from <= k < j ==> s@[k] != '=',
        decreases to - j,
    {
        j += 1;
    }
    proof {
        assert forall|k: int| 0 <= k < j - from implies seg[k] != '=' by {
            assert(seg[k] == s@[from + k]);
        }
        if j < to {
            assert(seg[j - from] == s@[j as int]);
        }
        lemma_scan_to_eq(seg, '=', j - from);
        assert(seg.take(j - from) =~= s@.subrange(from as int, j as int));
    }
    let key = decode_range(s, from, j);
    if j == to {
        if str_eq(key.as_str(), "size") || str_eq(key.as_str(), "scale") || str_eq(
            key.as_str(),
            "border",
        ) || str_eq(key.as_str(), "mirrored") {
            None
        } else {
            Some(acc)
        }
    } else {
        proof {
            assert(seg.skip(j + 1 - from) =~= s@.subrange(j + 1 as int, to as int));
        }
        let value = decode_range(s, j + 1, to);
        if str_eq(key.as_str(), "size") {
            match parse_u32_str(value.as_str()) {
                Some(v) => Some(RequestParams { size: Some(v), ..acc }),
                None => None,
            }
        } else if str_eq(key.as_str(), "scale") {
            match parse_u32_str(value.as_str()) {
                Some(v) => Some(RequestParams { scale: Some(v), ..acc }),
                None => None,
            }
        } else if str_eq(key.as_str(), "border") {
            match parse_u32_str(value.as_str()) {
                Some(v) => Some(RequestParams { border: Some(v), ..acc }),
                None => None,
            }
        } else if str_eq(key.as_str(), "mirrored") {
            match parse_bool_str(value.as_str()) {
                Some(v) => Some(RequestParams { mirrored: Some(v), ..acc }),
                None => None,
            }
        } else {
            Some(acc)
        }
    }
}

/// Decodes a whole query string into the request's overrides, or reports
/// that it is undecodable.
pub fn parse_query(query: &str) -> (r: Option<RequestParams>)
    ensures
        r == spec_parse_query(query@),
{
    let n: usize = query.unicode_len();
    let mut acc = RequestParams { size: None, scale: None, border: None, mirrored: None };
    let mut seg_start: usize = 0;
    let mut pos: usize = 0;
    proof {
        assert(query@.skip(0) =~= query@);
        assert(query@.subrange(0, 0) =~= Seq::<char>::empty());
    }
    while pos < n
        invariant
            seg_start <= pos <= n,
            n == query@.len(),
            spec_parse_query_from(
                query@.skip(pos as int),
                query@.subrange(seg_start as int, pos as int),
                acc,
            ) == spec_parse_query(query@),
        decreases n - pos,
    {
        let ghost rest = query@.skip(pos as int);
        let ghost seg = query@.subrange(seg_start as int, pos as int);
        proof {
            assert(rest[0] == query@[pos as int]);
            assert(rest.drop_first() =~= query@.skip(pos + 1 as int));
        }
        let c = query.get_char(pos);
        if c == '&' {
            match apply_segment(query, seg_start, pos, acc) {
                Some(acc2) => {
                    proof {
                        assert(Seq::<char>::empty() =~= query@.subrange(
                            pos + 1 as int,
                            pos + 1 as int,
                        ));
                    }
                    acc = acc2;
                },
                None => {
                    return None;
                },
            }
            seg_start = pos + 1;
        } else {
            proof {
                assert(seg.push(c) =~= query@.subrange(seg_start as int, pos + 1 as int));
            }
        }
        pos += 1;
    }
    proof {
        assert(query@.skip(n as int) =~= Seq::<char>::empty());
    }
    apply_segment(query, seg_start, n, acc)
}

} // verus!
