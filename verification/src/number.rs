//! Numbers as text: decimal numerals and sizes in GiB with two decimals.

use vstd::prelude::*;

verus! {

/// The character of the decimal digit `d`.
pub open spec fn digit(d: int) -> char {
    ((48 + d) as u8) as char
}

/// The decimal numeral of `n`, without leading zeros.
pub open spec fn decimal(n: nat) -> Seq<char>
    decreases n,
{
    if n < 10 {
        seq![digit(n as int)]
    } else {
        decimal(n / 10).push(digit((n % 10) as int))
    }
}

/// A numeral is not empty and is made of digits.
pub proof fn lemma_decimal_digits(n: nat)
    ensures
        decimal(n).len() > 0,
        forall|i: int| 0 <= i < decimal(n).len() ==> '0' <= #[trigger] decimal(n)[i] <= '9',
    decreases n,
{
    if n >= 10 {
        lemma_decimal_digits(n / 10);
    }
}

/// The character of the decimal digit `d`.
fn digit_char(d: u8) -> (c: char)
    requires
        d < 10,
    ensures
        c == digit(d as int),
{
    (48u8 + d) as char
}

/// Appends the decimal numeral of `n` to `out`.
pub fn push_decimal(out: &mut Vec<char>, n: u64)
    ensures
        final(out)@ == old(out)@ + decimal(n as nat),
    decreases n,
{
    if n >= 10 {
        push_decimal(out, n / 10);
    }
    out.push(digit_char((n % 10) as u8));
    proof {
        if n >= 10 {
            assert(final(out)@ =~= old(out)@ + decimal((n / 10) as nat).push(
                digit((n % 10) as int),
            ));
        } else {
            assert(final(out)@ =~= old(out)@ + seq![digit(n as int)]);
        }
    }
}

/// The quotient `num / den` rounded to the nearest whole number; a quotient
/// half way between two whole numbers goes to the even one.
pub open spec fn round_half_even(num: nat, den: nat) -> nat {
    let q = num / den;
    let r = num % den;
    if 2 * r > den || (2 * r == den && q % 2 == 1) {
        q + 1
    } else {
        q
    }
}

/// The distance between neighbouring double-precision numbers around `n`:
/// 1 below 2^53, and twice as much with every further bit.
pub open spec fn spacing(n: nat) -> nat
    decreases n,
{
    if n < 0x20_0000_0000_0000 {
        1
    } else {
        2 * spacing(n / 2)
    }
}

/// The whole number that a double-precision float holds for `n`: `n` itself
/// below 2^53, else `n` rounded to 53 significant bits.
pub open spec fn as_double(n: nat) -> nat {
    round_half_even(n, spacing(n)) * spacing(n)
}

/// One GiB in bytes.
pub const GIB: u64 = 0x4000_0000;

/// `bytes` in hundredths of a GiB, as a double-precision float of that many
/// bytes prints with two decimals.
pub open spec fn hundredths(bytes: nat) -> nat {
    round_half_even(as_double(bytes) * 100, GIB as nat)
}

/// A size in GiB with two decimals: `"60.00"` for 60 GiB.
pub open spec fn gib_text(bytes: nat) -> Seq<char> {
    let h = hundredths(bytes);
    decimal(h / 100) + seq!['.', digit((h / 10 % 10) as int), digit((h % 10) as int)]
}

/// The rounded quotient `num / den`.
fn rounded_quotient(num: u128, den: u128) -> (q: u128)
    requires
        den > 0,
        num < 0x1_0000_0000_0000_0000_0000_0000,
        den < 0x1_0000_0000_0000_0000_0000_0000,
    ensures
        q == round_half_even(num as nat, den as nat),
        q <= num / den + 1,
{
    let q = num / den;
    let r = num % den;
    if 2 * r > den || (2 * r == den && q % 2 == 1) {
        q + 1
    } else {
        q
    }
}

/// The spacing of double-precision numbers around `n`.
pub fn spacing_of(n: u64) -> (s: u64)
    ensures
        s == spacing(n as nat),
        s == 1 || s * 0x10_0000_0000_0000 <= n,
        s >= 1,
    decreases n,
{
    if n < 0x20_0000_0000_0000 {
        1
    } else {
        let half = spacing_of(n / 2);
        2 * half
    }
}

/// `bytes` in hundredths of a GiB.
pub fn hundredths_of(bytes: u64) -> (h: u64)
    ensures
        h == hundredths(bytes as nat),
{
    let s = spacing_of(bytes);
    let q = rounded_quotient(bytes as u128, s as u128);
    assert(q * s <= (bytes / s + 1) * s) by (nonlinear_arith)
        requires
            q <= bytes as u128 / s as u128 + 1,
            s >= 1,
    ;
    assert((bytes / s + 1) * s <= bytes + s) by (nonlinear_arith)
        requires
            s >= 1,
            bytes >= 0,
    ;
    let d: u128 = q * (s as u128);
    let h = rounded_quotient(d * 100, GIB as u128);
    assert(h <= 0xffff_ffff_ffff_ffff);
    h as u64
}

/// Appends the size `bytes` in GiB with two decimals to `out`.
pub fn push_gib(out: &mut Vec<char>, bytes: u64)
    ensures
        final(out)@ == old(out)@ + gib_text(bytes as nat),
{
    let h = hundredths_of(bytes);
    push_decimal(out, h / 100);
    out.push('.');
    out.push(digit_char((h / 10 % 10) as u8));
    out.push(digit_char((h % 10) as u8));
    proof {
        assert(final(out)@ =~= old(out)@ + gib_text(bytes as nat));
    }
}

/// A size text is not empty, begins with a digit and ends with one.
pub proof fn lemma_gib_text(bytes: nat)
    ensures
        gib_text(bytes).len() >= 4,
        '0' <= gib_text(bytes)[0] <= '9',
        '0' <= gib_text(bytes).last() <= '9',
{
    let h = hundredths(bytes);
    lemma_decimal_digits(h / 100);
    assert(gib_text(bytes)[0] == decimal(h / 100)[0]);
}

} // verus!
