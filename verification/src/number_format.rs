//! Right-aligned decimal rendering with a space between every group of
//! three digits, as used by the debug overlay ("1 234 567").
use vstd::prelude::*;

verus! {

/// Width of the rendering buffer: ten digits of an `i32` and three separators.
pub const NUMBER_BUFFER_LEN: usize = 14;

/// Buffer position of the `d`-th decimal digit counted from the right
/// (d = 0 is the ones digit); every third digit is followed, to its left,
/// by a separator slot.
pub open spec fn digit_pos(d: int) -> int {
    13 - d - d / 3
}

/// Number of decimal digits of a positive number (0 for 0).
pub open spec fn digit_count(n: nat) -> nat
    decreases n,
{
    if n == 0 {
        0
    } else {
        1 + digit_count(n / 10)
    }
}

pub open spec fn pow10(d: nat) -> nat
    decreases d,
{
    if d == 0 {
        1
    } else {
        10 * pow10((d - 1) as nat)
    }
}

/// The `d`-th decimal digit of `n`, counted from the right.
pub open spec fn digit_at(n: nat, d: nat) -> nat {
    (n / pow10(d)) % 10
}

/// Which digit (counted from the right) a buffer position shows; separator
/// slots and positions left of the buffer's digit area show none.
pub open spec fn digit_index_at(p: int) -> Option<int> {
    let q = 13 - p;
    if q % 4 == 3 {
        None
    } else {
        Some(q - q / 4)
    }
}

/// What the buffer holds at position `p` (0 <= p < 14) after rendering `n`:
/// the digit whose slot it is, or a space.
pub open spec fn rendered_byte(n: int, p: int) -> u8 {
    match digit_index_at(p) {
        Some(d) => if n > 0 && d < digit_count(n as nat) {
            (48 + digit_at(n as nat, d as nat)) as u8
        } else {
            32u8
        },
        None => 32u8,
    }
}

/// Index of the leftmost rendered digit (14 when nothing is rendered).
pub open spec fn rendered_start(n: int) -> int {
    if n > 0 {
        digit_pos(digit_count(n as nat) - 1)
    } else {
        14
    }
}

proof fn lemma_pow10_positive(d: nat)
    ensures
        pow10(d) > 0,
    decreases d,
{
    if d > 0 {
        lemma_pow10_positive((d - 1) as nat);
    }
}

proof fn lemma_digit_count_bound(n: nat, m: nat)
    requires
        n < pow10(m),
    ensures
        digit_count(n) <= m,
    decreases m,
{
    if n > 0 {
        if m == 0 {
            assert(false);
        } else {
            lemma_digit_count_bound(n / 10, (m - 1) as nat);
        }
    }
}

/// Renders `num` right-aligned into a 14-byte buffer, digits grouped by three
/// with a space between the groups; returns the buffer and the index of its
/// leftmost digit. Zero and negative numbers render as an all-space buffer
/// with start index 14.
pub fn itoa(num: i32) -> (res: ([u8; 14], usize))
    ensures
        res.1 == rendered_start(num as int),
        forall|p: int| 0 <= p < 14 ==> #[trigger] res.0[p] == rendered_byte(num as int, p),
{
    let mut arr: [u8; 14] = [32u8; 14];
    let mut i: usize = 14;
    let mut n: i32 = num;
    let ghost mut k: nat = 0;
    let ghost total: nat = if num > 0 { digit_count(num as nat) } else { 0 };
    proof {
        assert(pow10(0) == 1);
        if num > 0 {
            reveal_with_fuel(pow10, 11);
            assert(pow10(10) == 10000000000nat);
            lemma_digit_count_bound(num as nat, 10);
        }
    }
    while n > 0
        invariant
            total <= 10,
            num > 0 ==> total == digit_count(num as nat),
            num <= 0 ==> n == num,
            num > 0 ==> 0 <= n && n as nat == (num as nat) / pow10(k),
            num > 0 ==> k + digit_count(n as nat) == total,
            k <= total,
            i == (if k == 0 { 14 } else { digit_pos(k - 1) }),
            forall|p: int|
                0 <= p < 14 ==> #[trigger] arr[p] == (match digit_index_at(p) {
                    Some(d) => if num > 0 && d < k {
                        (48 + digit_at(num as nat, d as nat)) as u8
                    } else {
                        32u8
                    },
                    None => 32u8,
                }),
        decreases n,
    {
        proof {
            lemma_pow10_positive(k);
            vstd::arithmetic::div_mod::lemma_div_denominator(num as int, pow10(k) as int, 10);
            assert(pow10(k + 1) == 10 * pow10(k));
            assert(pow10(k) * 10 == 10 * pow10(k)) by (nonlinear_arith);
        }
        i = i - 1;
        if i == 10 || i == 6 || i == 2 {
            i = i - 1;
        }
        let digit: u8 = (n % 10) as u8;
        arr[i] = digit + 48;
        n = n / 10;
        proof {
            assert(i == digit_pos(k as int));
            assert(digit_index_at(i as int) == Some(k as int));
            assert forall|p: int| 0 <= p < 14 && p != i implies digit_index_at(p) != Some(k as int) by {
            }
            k = k + 1;
        }
    }
    (arr, i)
}

/// The characters `write_into_str2` appends: the buffer's tail from the
/// leftmost digit, widened to `len_with_padding` characters when that is longer.
pub open spec fn padded_tail(buffer: Seq<u8>, start: int, len_with_padding: int) -> Seq<char> {
    let len = if len_with_padding > 14 - start { len_with_padding } else { 14 - start };
    Seq::new(len as nat, |j: int| buffer[14 - len + j] as char)
}

/// Appends one character to a `String` (`String::push`).
#[verifier::external_body]
pub(crate) fn push_char(dst: &mut String, c: char)
    ensures
        final(dst)@ == old(dst)@.push(c),
{
    dst.push(c);
}

/// Appends the rendered number held in `a` (buffer and start index, as
/// `itoa` returns them) to `dst`, left-padded with the buffer's spaces to at
/// least `len_with_padding` characters.
pub fn write_into_str2(a: ([u8; 14], usize), dst: &mut String, len_with_padding: usize)
    requires
        a.1 <= 14,
        len_with_padding <= 14,
    ensures
        final(dst)@ == old(dst)@ + padded_tail(a.0@, a.1 as int, len_with_padding as int),
{
    let (array, original_start_index) = a;
    let len_without_padding = 14 - original_start_index;
    let len = if len_with_padding > len_without_padding {
        len_with_padding
    } else {
        len_without_padding
    };
    let start = 14 - len;
    let ghost tail = padded_tail(a.0@, a.1 as int, len_with_padding as int);
    let ghost initial = dst@;
    let mut i = start;
    while i < 14
        invariant
            start <= i <= 14,
            start == 14 - len,
            tail.len() == len,
            array == a.0,
            tail == padded_tail(a.0@, a.1 as int, len_with_padding as int),
            len == (if len_with_padding > 14 - a.1 { len_with_padding as int } else { 14 - a.1 }),
            dst@ == initial + tail.subrange(0, i - start),
        decreases 14 - i,
    {
        let c = array[i] as char;
        push_char(dst, c);
        proof {
            assert(tail.subrange(0, i + 1 - start) == tail.subrange(0, i - start).push(c));
        }
        i = i + 1;
    }
    proof {
        assert(tail.subrange(0, 14 - start) == tail);
    }
}

/// Renders `num` as `itoa` does and appends it to `dst`, padded to at least
/// `len_with_padding` characters.
pub fn write_into_str(num: i32, dst: &mut String, len_with_padding: usize)
    requires
        len_with_padding <= 14,
    ensures
        final(dst)@ == old(dst)@ + padded_tail(
            Seq::new(14, |p: int| rendered_byte(num as int, p)),
            rendered_start(num as int),
            len_with_padding as int,
        ),
{
    let a = itoa(num);
    proof {
        assert(a.0@ == Seq::new(14, |p: int| rendered_byte(num as int, p)));
        if num > 0 {
            let n = num as nat;
            assert(rendered_start(num as int) >= 1 && rendered_start(num as int) <= 13) by {
                reveal_with_fuel(pow10, 11);
                lemma_digit_count_bound(n, 10);
            };
        }
    }
    write_into_str2(a, dst, len_with_padding);
}

} // verus!
