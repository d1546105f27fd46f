//! Reading console command arguments: decimal integers, screen resolutions
//! written as `WIDTHxHEIGHT@FREQUENCY`, and the check of an integer
//! parameter.
use vstd::prelude::*;
use crate::console_edit::push_range;

verus! {

/// Whether `c` is an ASCII decimal digit.
pub open spec fn is_digit(c: char) -> bool {
    '0' <= c && c <= '9'
}

/// Whether every character of `ds` is a digit.
pub open spec fn all_digits(ds: Seq<char>) -> bool {
    forall|i: int| 0 <= i < ds.len() ==> is_digit(#[trigger] ds[i])
}

/// The number the digits `ds` write in base 10.
pub open spec fn digits_value(ds: Seq<char>) -> int
    decreases ds.len(),
{
    if ds.len() == 0 {
        0
    } else {
        10 * digits_value(ds.drop_last()) + (ds.last() as int - '0' as int)
    }
}

/// The 32-bit integer that `s` writes as `str::parse` reads it: an
/// optional `+` or `-`, then at least one decimal digit and nothing else,
/// within the range of `i32`.
pub open spec fn spec_parse_i32(s: Seq<char>) -> Option<i32> {
    let signed = s.len() > 0 && (s[0] == '-' || s[0] == '+');
    let ds = if signed { s.skip(1) } else { s };
    let v = if signed && s[0] == '-' { -digits_value(ds) } else { digits_value(ds) };
    if ds.len() == 0 || !all_digits(ds) || v < i32::MIN || v > i32::MAX {
        None
    } else {
        Some(v as i32)
    }
}

proof fn lemma_digits_value_nonneg(ds: Seq<char>)
    requires
        all_digits(ds),
    ensures
        digits_value(ds) >= 0,
    decreases ds.len(),
{
    if ds.len() > 0 {
        assert(all_digits(ds.drop_last()));
        lemma_digits_value_nonneg(ds.drop_last());
        assert(is_digit(ds[ds.len() - 1]));
    }
}

/// A bound above every value that fits: 2^31 + 1.
pub open spec fn value_cap() -> int {
    0x8000_0001
}

/// Reads a decimal integer; see `spec_parse_i32`.
pub fn parse_i32(s: &str) -> (r: Option<i32>)
    ensures
        r == spec_parse_i32(s@),
{
    let n = s.unicode_len();
    let ghost t = s@;
    let mut start: usize = 0;
    let mut negative = false;
    if n > 0 {
        let c = s.get_char(0);
        if c == '-' || c == '+' {
            start = 1;
            negative = c == '-';
        }
    }
    let ghost ds = t.skip(start as int);
    let ghost signed = t.len() > 0 && (t[0] == '-' || t[0] == '+');
    proof {
        if !signed {
            assert(ds =~= t);
        }
        assert(ds == (if signed { t.skip(1) } else { t }));
        assert(negative == (signed && t[0] == '-'));
    }
    if start >= n {
        return None;
    }
    let mut v: u64 = 0;
    let mut k: usize = start;
    assert(ds.take(0) =~= Seq::<char>::empty());
    while k < n
        invariant
            n == t.len(),
            t == s@,
            start <= k <= n,
            ds == t.skip(start as int),
            signed == (t.len() > 0 && (t[0] == '-' || t[0] == '+')),
            ds == (if signed { t.skip(1) } else { t }),
            negative == (signed && t[0] == '-'),
            all_digits(ds.take(k - start)),
            v <= value_cap(),
            v == (if digits_value(ds.take(k - start)) < value_cap() { digits_value(ds.take(k - start)) } else { value_cap() }),
        decreases n - k,
    {
        let c = s.get_char(k);
        if !('0' <= c && c <= '9') {
            proof {
                let i = k - start;
                assert(ds[i as int] == c);
                assert(!is_digit(ds[i as int]));
                assert(!all_digits(ds));
                assert(spec_parse_i32(t) is None);
            }
            return None;
        }
        let d = (c as u32 - '0' as u32) as u64;
        let ghost pre = ds.take(k - start);
        let ghost next = ds.take(k - start + 1);
        proof {
            assert(next.drop_last() =~= pre);
            assert(next.last() == c);
            assert(all_digits(next)) by {
                assert forall|i: int| 0 <= i < next.len() implies is_digit(#[trigger] next[i]) by {
                    if i < pre.len() {
                        assert(next[i] == pre[i]);
                    }
                }
            }
            lemma_digits_value_nonneg(pre);
        }
        if v >= 0x8000_0001 {
            v = 0x8000_0001;
        } else {
            let w = v * 10 + d;
            v = if w >= 0x8000_0001 { 0x8000_0001 } else { w };
        }
        k = k + 1;
    }
    assert(ds.take(n - start) =~= ds);
    if negative {
        if v > 0x8000_0000 {
            None
        } else {
            Some((0 - v as i64) as i32)
        }
    } else {
        if v > 0x7FFF_FFFF {
            None
        } else {
            Some(v as i32)
        }
    }
}

/// Index of the first `c` in `s`, if any.
pub open spec fn find_char(s: Seq<char>, c: char) -> Option<int>
    decreases s.len(),
{
    if s.len() == 0 {
        None
    } else {
        match find_char(s.drop_last(), c) {
            Some(i) => Some(i),
            None => if s.last() == c { Some(s.len() - 1) } else { None },
        }
    }
}

/// The part of `s` before the first `c` (all of it when there is none).
pub open spec fn before_char(s: Seq<char>, c: char) -> Seq<char> {
    match find_char(s, c) {
        Some(i) => s.take(i),
        None => s,
    }
}

/// The part of `s` after the first `c`.
pub open spec fn after_char(s: Seq<char>, c: char) -> Seq<char> {
    s.skip(find_char(s, c).unwrap() + 1)
}

proof fn lemma_find_char(s: Seq<char>, c: char)
    ensures
        find_char(s, c) matches Some(i) ==> 0 <= i < s.len() && s[i] == c && forall|j: int| 0 <= j < i ==> s[j] != c,
        find_char(s, c) is None ==> forall|j: int| 0 <= j < s.len() ==> s[j] != c,
    decreases s.len(),
{
    if s.len() > 0 {
        lemma_find_char(s.drop_last(), c);
        assert forall|j: int| 0 <= j < s.len() - 1 implies s[j] == s.drop_last()[j] by {}
    }
}

/// Index of the first `c` in `s`.
fn find_in(s: &str, c: char) -> (r: Option<usize>)
    ensures
        r matches Some(i) ==> find_char(s@, c) == Some(i as int),
        r is None ==> find_char(s@, c) is None,
{
    let n = s.unicode_len();
    let mut i: usize = 0;
    proof {
        lemma_find_char(s@, c);
    }
    while i < n
        invariant
            n == s@.len(),
            i <= n,
            forall|j: int| 0 <= j < i ==> s@[j] != c,
        decreases n - i,
    {
        if s.get_char(i) == c {
            proof {
                lemma_find_char(s@, c);
                if find_char(s@, c) is None {
                    assert(s@[i as int] == c);
                }
            }
            return Some(i);
        }
        i = i + 1;
    }
    None
}

/// The characters of `s` in `[from, to)`.
fn substring(s: &str, from: usize, to: usize) -> (r: String)
    requires
        from <= to <= s@.len(),
    ensures
        r@ == s@.subrange(from as int, to as int),
{
    let mut out = String::new();
    push_range(&mut out, s, from, to);
    assert(Seq::<char>::empty() + s@.subrange(from as int, to as int) =~= s@.subrange(from as int, to as int));
    out
}

/// The resolution that `s` (`WIDTHxHEIGHT@FREQUENCY`) names, read as
/// `str::split` and `str::parse` read it: the width before the first `x`,
/// the height from there to the first `@` of the next `x`-separated part,
/// the frequency from there to the next `@`; `None` when a separator is
/// missing or a number does not read.
pub open spec fn spec_parse_resolution(s: Seq<char>) -> Option<(i32, i32, i32)> {
    if find_char(s, 'x') is None {
        None
    } else {
        let hf = before_char(after_char(s, 'x'), 'x');
        if find_char(hf, '@') is None {
            None
        } else {
            match (
                spec_parse_i32(before_char(s, 'x')),
                spec_parse_i32(before_char(hf, '@')),
                spec_parse_i32(before_char(after_char(hf, '@'), '@')),
            ) {
                (Some(w), Some(h), Some(f)) => Some((w, h, f)),
                _ => None,
            }
        }
    }
}

/// The part of `s` before the first `c`, computed.
fn before(s: &str, c: char) -> (r: String)
    ensures
        r@ == before_char(s@, c),
{
    match find_in(s, c) {
        Some(i) => {
            proof {
                lemma_find_char(s@, c);
            }
            let r = substring(s, 0, i);
            assert(s@.subrange(0, i as int) =~= s@.take(i as int));
            r
        },
        None => {
            let n = s.unicode_len();
            let r = substring(s, 0, n);
            assert(s@.subrange(0, n as int) =~= s@);
            r
        },
    }
}

/// Reads a screen resolution; see `spec_parse_resolution`.
pub fn parse_resolution(s: &str) -> (r: Option<(i32, i32, i32)>)
    ensures
        r == spec_parse_resolution(s@),
{
    let n = s.unicode_len();
    let ix = match find_in(s, 'x') {
        Some(i) => i,
        None => {
            return None;
        },
    };
    proof {
        lemma_find_char(s@, 'x');
    }
    let after_x = substring(s, ix + 1, n);
    assert(after_x@ =~= after_char(s@, 'x'));
    let hf = before(after_x.as_str(), 'x');
    let ia = match find_in(hf.as_str(), '@') {
        Some(i) => i,
        None => {
            return None;
        },
    };
    proof {
        lemma_find_char(hf@, '@');
    }
    let m = hf.as_str().unicode_len();
    let after_at = substring(hf.as_str(), ia + 1, m);
    assert(after_at@ =~= after_char(hf@, '@'));
    let w_str = before(s, 'x');
    let h_str = before(hf.as_str(), '@');
    let f_str = before(after_at.as_str(), '@');
    match (parse_i32(w_str.as_str()), parse_i32(h_str.as_str()), parse_i32(f_str.as_str())) {
        (Some(w), Some(h), Some(f)) => Some((w, h, f)),
        _ => None,
    }
}

/// Whether an integer parameter is acceptable: a given argument must read
/// as an integer; a missing one is acceptable when it is optional.
pub open spec fn spec_int_param_ok(arg: Option<Seq<char>>, mandatory: bool) -> bool {
    match arg {
        Some(a) => spec_parse_i32(a) is Some,
        None => !mandatory,
    }
}

/// See `spec_int_param_ok`.
pub fn int_param_ok(arg: Option<&str>, mandatory: bool) -> (r: bool)
    ensures
        r == spec_int_param_ok(
            match arg {
                Some(a) => Some(a@),
                None => None,
            },
            mandatory,
        ),
{
    match arg {
        Some(a) => parse_i32(a).is_some(),
        None => !mandatory,
    }
}

} // verus!
