//! Decimal text of integers, as the coordinate grammar and the XML
//! attributes write them.
use vstd::prelude::*;

verus! {

/// ASCII digit of a value below ten.
pub open spec fn digit_byte(d: nat) -> u8 {
    (d + 48) as u8
}

/// The decimal digits of `n`, most significant first, without leading zeros.
pub open spec fn digits_of(n: nat) -> Seq<u8>
    decreases n,
{
    if n < 10 {
        seq![digit_byte(n)]
    } else {
        digits_of(n / 10).push(digit_byte(n % 10))
    }
}

/// The decimal text of `v`: a minus sign for negative values, then the digits.
pub open spec fn decimal(v: int) -> Seq<u8> {
    if v < 0 {
        seq![45u8] + digits_of((-v) as nat)
    } else {
        digits_of(v as nat)
    }
}

/// Appends the digits of `n` to `out`.
pub fn push_digits(out: &mut Vec<u8>, n: u64)
    ensures
        final(out)@ == old(out)@ + digits_of(n as nat),
    decreases n,
{
    if n >= 10 {
        push_digits(out, n / 10);
    }
    out.push((n % 10) as u8 + 48);
}

/// Appends the decimal text of an unsigned value to `out`.
pub fn push_unsigned(out: &mut Vec<u8>, n: u64)
    ensures
        final(out)@ == old(out)@ + decimal(n as int),
{
    push_digits(out, n);
}

/// Appends the decimal text of a signed value to `out`.
pub fn push_signed(out: &mut Vec<u8>, v: i64)
    ensures
        final(out)@ == old(out)@ + decimal(v as int),
{
    if v < 0 {
        out.push(45u8);
        let m: u64 = (0i128 - v as i128) as u64;
        push_digits(out, m);
        assert(final(out)@ =~= old(out)@ + decimal(v as int));
    } else {
        push_digits(out, v as u64);
    }
}

/// The text of the closing flag.
pub proof fn lemma_decimal_18()
    ensures
        decimal(18) == seq![49u8, 56u8],
{
    reveal_with_fuel(digits_of, 2);
    assert(digits_of(1) == seq![49u8]);
    assert(decimal(18) =~= seq![49u8, 56u8]);
}

/// Whether `c` is an ASCII digit.
pub open spec fn is_digit(c: u8) -> bool {
    48 <= c <= 57
}

/// Number of ASCII digits at the start of `b`.
pub open spec fn digit_run_len(b: Seq<u8>) -> nat
    decreases b.len(),
{
    if b.len() > 0 && is_digit(b[0]) {
        1 + digit_run_len(b.drop_first())
    } else {
        0
    }
}

/// The value of a sequence of ASCII digits.
pub open spec fn digits_value(d: Seq<u8>) -> nat
    decreases d.len(),
{
    if d.len() == 0 {
        0
    } else {
        digits_value(d.drop_last()) * 10 + (d.last() - 48) as nat
    }
}

/// Digits without a superfluous leading zero: `0`, or digits that do not
/// start with `0`.
pub open spec fn canonical_digits(d: Seq<u8>) -> bool {
    &&& d.len() >= 1
    &&& forall|i: int| 0 <= i < d.len() ==> is_digit(#[trigger] d[i])
    &&& (d.len() == 1 || d[0] != 48u8)
}

/// The digits of a number are canonical, start with a non-zero digit when
/// the number is not zero, and read back as the number.
pub proof fn lemma_digits_of(n: nat)
    ensures
        canonical_digits(digits_of(n)),
        digits_value(digits_of(n)) == n,
        n > 0 ==> digits_of(n)[0] != 48u8,
    decreases n,
{
    if n >= 10 {
        lemma_digits_of(n / 10);
        let d = digits_of(n);
        assert(d.drop_last() =~= digits_of(n / 10));
        assert(d[0] == digits_of(n / 10)[0]);
        assert(d.last() == digit_byte(n % 10));
        assert((n / 10) * 10 + n % 10 == n) by (nonlinear_arith);
        assert forall|i: int| 0 <= i < d.len() implies is_digit(#[trigger] d[i]) by {
            if i < d.len() - 1 {
                assert(d[i] == digits_of(n / 10)[i]);
            }
        }
    } else {
        assert(digits_of(n).drop_last() =~= Seq::<u8>::empty());
        assert(digits_value(Seq::<u8>::empty()) == 0);
    }
}

/// Digits that start with a non-zero digit have a positive value.
proof fn lemma_value_positive(d: Seq<u8>)
    requires
        d.len() >= 1,
        forall|i: int| 0 <= i < d.len() ==> is_digit(#[trigger] d[i]),
        d[0] != 48u8,
    ensures
        digits_value(d) >= 1,
        d.len() >= 2 ==> digits_value(d) >= 10,
    decreases d.len(),
{
    if d.len() >= 2 {
        let e = d.drop_last();
        assert(e[0] == d[0]);
        assert forall|i: int| 0 <= i < e.len() implies is_digit(#[trigger] e[i]) by {
            assert(e[i] == d[i]);
        }
        lemma_value_positive(e);
    } else {
        assert(d.drop_last() =~= Seq::<u8>::empty());
    }
}

/// Canonical digits are the digits of their value.
pub proof fn lemma_canonical_digits(d: Seq<u8>)
    requires
        canonical_digits(d),
    ensures
        digits_of(digits_value(d)) == d,
    decreases d.len(),
{
    let e = d.drop_last();
    if d.len() == 1 {
        assert(e =~= Seq::<u8>::empty());
        assert(digits_of(digits_value(d)) =~= d);
    } else {
        assert(e[0] == d[0]);
        assert forall|i: int| 0 <= i < e.len() implies is_digit(#[trigger] e[i]) by {
            assert(e[i] == d[i]);
        }
        lemma_canonical_digits(e);
        lemma_value_positive(d);
        let v = digits_value(e);
        let c = (d.last() - 48) as nat;
        assert(is_digit(d[d.len() - 1]));
        assert(c < 10);
        assert((v * 10 + c) / 10 == v && (v * 10 + c) % 10 == c) by (nonlinear_arith)
            requires
                c < 10,
        ;
        assert(digits_of(digits_value(d)) =~= d);
    }
}

} // verus!
