//! Decimal numbers as text: reading an unsigned number and writing one.

use vstd::prelude::*;

verus! {

/// Whether `c` is one of the ten decimal digits.
pub open spec fn is_digit(c: char) -> bool {
    '0' <= c <= '9'
}

/// The value of the decimal digit `c`.
pub open spec fn digit_of(c: char) -> nat {
    if is_digit(c) {
        (c as int - '0' as int) as nat
    } else {
        0
    }
}

/// Whether every character of `s` is a decimal digit.
pub open spec fn all_digits(s: Seq<char>) -> bool {
    forall|i: int| 0 <= i < s.len() ==> is_digit(#[trigger] s[i])
}

/// The number that the digits of `s` write in base ten; 0 for no digits.
pub open spec fn digits_value(s: Seq<char>) -> nat
    decreases s.len(),
{
    if s.len() == 0 {
        0
    } else {
        digits_value(s.drop_last()) * 10 + digit_of(s.last())
    }
}

/// `s` without one plus sign at its start, if it has one.
pub open spec fn unsigned_digits(s: Seq<char>) -> Seq<char> {
    if s.len() > 0 && s[0] == '+' {
        s.drop_first()
    } else {
        s
    }
}

/// The unsigned 64-bit number that `s` writes: an optional plus sign, then
/// one or more decimal digits whose value fits. `None` for any other text.
pub open spec fn parse_u64_of(s: Seq<char>) -> Option<u64> {
    let d = unsigned_digits(s);
    if d.len() > 0 && all_digits(d) && digits_value(d) <= u64::MAX {
        Some(digits_value(d) as u64)
    } else {
        None
    }
}

/// The value of a prefix never exceeds the value of the whole.
pub proof fn lemma_prefix_value(s: Seq<char>, k: int)
    requires
        0 <= k <= s.len(),
    ensures
        digits_value(s.take(k)) <= digits_value(s),
    decreases s.len(),
{
    if k == s.len() {
        assert(s.take(k) == s);
    } else {
        let t = s.drop_last();
        assert(t.take(k) == s.take(k));
        lemma_prefix_value(t, k);
    }
}

/// Whether `c` is a decimal digit.
pub fn digit_char(c: char) -> (b: bool)
    ensures
        b == is_digit(c),
{
    c >= '0' && c <= '9'
}

/// The value of the decimal digit `c`.
pub fn digit_value(c: char) -> (d: u64)
    requires
        is_digit(c),
    ensures
        d == digit_of(c),
        d <= 9,
{
    ((c as u32) - ('0' as u32)) as u64
}

/// Reads an unsigned 64-bit number, as [`parse_u64_of`] has it.
pub fn parse_u64(v: &Vec<char>) -> (out: Option<u64>)
    ensures
        out == parse_u64_of(v@),
{
    let start: usize = if v.len() > 0 && v[0] == '+' {
        1
    } else {
        0
    };
    if start >= v.len() {
        return None;
    }
    let ghost d = unsigned_digits(v@);
    proof {
        assert(d == v@.skip(start as int));
    }
    let mut acc: u64 = 0;
    let mut i: usize = start;
    while i < v.len()
        invariant
            start <= i <= v.len(),
            d == v@.skip(start as int),
            d == unsigned_digits(v@),
            all_digits(d.take(i - start)),
            acc == digits_value(d.take(i - start)),
        decreases v.len() - i,
    {
        let c: char = v[i];
        let ghost k = i - start;
        proof {
            assert(d[k] == c);
            assert(d.take(k + 1).drop_last() == d.take(k));
            assert(d.take(k + 1).last() == c);
        }
        if !digit_char(c) {
            return None;
        }
        let dv = digit_value(c);
        if acc > (u64::MAX - dv) / 10 {
            proof {
                assert(digits_value(d.take(k + 1)) > u64::MAX);
                lemma_prefix_value(d, k + 1);
            }
            return None;
        }
        acc = acc * 10 + dv;
        proof {
            assert forall|j: int| 0 <= j < k + 1 implies is_digit(#[trigger] d.take(k + 1)[j]) by {
                if j < k {
                    assert(d.take(k + 1)[j] == d.take(k)[j]);
                }
            }
        }
        i += 1;
    }
    proof {
        assert(d.take(d.len() as int) == d);
    }
    Some(acc)
}

/// The character of the decimal digit `d`.
pub open spec fn char_of_digit(d: nat) -> char {
    ((48 + d) as u8) as char
}

/// `n` written in base ten, without leading zeros; "0" for zero.
pub open spec fn decimal_of(n: nat) -> Seq<char>
    decreases n,
{
    if n < 10 {
        seq![char_of_digit(n)]
    } else {
        decimal_of(n / 10).push(char_of_digit(n % 10))
    }
}

/// Appends `n`, written in base ten, to `out`.
pub fn push_decimal(n: u64, out: &mut Vec<char>)
    ensures
        final(out)@ == old(out)@ + decimal_of(n as nat),
    decreases n,
{
    if n >= 10 {
        push_decimal(n / 10, out);
    }
    let d: u8 = (n % 10) as u8;
    out.push((48u8 + d) as char);
    proof {
        if n >= 10 {
            assert(final(out)@ =~= old(out)@ + decimal_of(n as nat));
        } else {
            assert(final(out)@ =~= old(out)@ + decimal_of(n as nat));
        }
    }
}

/// `n` written in base ten.
pub fn decimal(n: u64) -> (out: Vec<char>)
    ensures
        out@ == decimal_of(n as nat),
{
    let mut out: Vec<char> = Vec::new();
    push_decimal(n, &mut out);
    proof {
        assert(Seq::<char>::empty() + decimal_of(n as nat) =~= decimal_of(n as nat));
    }
    out
}

/// The machine-word number that `s` writes: as [`parse_u64_of`], and the
/// value fits a machine word.
pub open spec fn parse_usize_of(s: Seq<char>) -> Option<usize> {
    match parse_u64_of(s) {
        Some(n) => if n <= usize::MAX {
            Some(n as usize)
        } else {
            None
        },
        None => None,
    }
}

/// Reads a machine-word number, as [`parse_usize_of`] has it.
pub fn parse_usize(v: &Vec<char>) -> (out: Option<usize>)
    ensures
        out == parse_usize_of(v@),
{
    match parse_u64(v) {
        Some(n) => if n <= usize::MAX as u64 {
            Some(n as usize)
        } else {
            None
        },
        None => None,
    }
}

/// `n`, or the largest number that 64 bits hold where `n` is larger.
pub open spec fn saturated(n: nat) -> u64 {
    if n <= u64::MAX {
        n as u64
    } else {
        u64::MAX
    }
}

/// The value of the digits of `v`, saturated; `None` where a character of
/// `v` is no digit. No digits at all have the value 0.
pub fn digits_saturating(v: &Vec<char>) -> (out: Option<u64>)
    ensures
        out == (if all_digits(v@) {
            Some(saturated(digits_value(v@)))
        } else {
            None
        }),
{
    let mut acc: u64 = 0;
    let mut i: usize = 0;
    while i < v.len()
        invariant
            i <= v.len(),
            all_digits(v@.take(i as int)),
            acc == saturated(digits_value(v@.take(i as int))),
        decreases v.len() - i,
    {
        let c: char = v[i];
        proof {
            assert(v@.take(i + 1).drop_last() == v@.take(i as int));
            assert(v@.take(i + 1).last() == c);
        }
        if !digit_char(c) {
            return None;
        }
        let dv = digit_value(c);
        if acc > (u64::MAX - dv) / 10 {
            acc = u64::MAX;
        } else {
            acc = acc * 10 + dv;
        }
        proof {
            assert forall|j: int| 0 <= j < i + 1 implies is_digit(#[trigger] v@.take(i + 1)[j]) by {
                if j < i {
                    assert(v@.take(i + 1)[j] == v@.take(i as int)[j]);
                }
            }
        }
        i += 1;
    }
    proof {
        assert(v@.take(v@.len() as int) == v@);
    }
    Some(acc)
}

} // verus!
