//! Decimal text of integers and of amounts held in cents.

use vstd::prelude::*;

verus! {

/// Relies on `String::push`: the character is added at the end.
#[verifier::external_body]
pub(crate) fn push_char(s: &mut String, c: char)
    ensures
        final(s)@ == old(s)@.push(c),
{
    s.push(c)
}

pub open spec fn digit_char(d: int) -> char {
    if d == 0 { '0' }
    else if d == 1 { '1' }
    else if d == 2 { '2' }
    else if d == 3 { '3' }
    else if d == 4 { '4' }
    else if d == 5 { '5' }
    else if d == 6 { '6' }
    else if d == 7 { '7' }
    else if d == 8 { '8' }
    else { '9' }
}

/// Decimal digits of `n`, without leading zeros ("0" for zero).
pub open spec fn nat_text(n: nat) -> Seq<char>
    decreases n,
{
    if n < 10 { seq![digit_char(n as int)] } else { nat_text(n / 10).push(digit_char((n % 10) as int)) }
}

/// Decimal text of `i`, with a leading `-` where it is negative.
pub open spec fn int_text(i: int) -> Seq<char> {
    if i < 0 { seq!['-'].add(nat_text((-i) as nat)) } else { nat_text(i as nat) }
}

/// An amount of `c` cents written with two decimal places, as `1234.50`.
pub open spec fn cents_text(c: int) -> Seq<char> {
    let a = if c < 0 { -c } else { c };
    let body = nat_text((a / 100) as nat) + seq!['.', digit_char((a % 100) / 10), digit_char(a % 10)];
    if c < 0 { seq!['-'].add(body) } else { body }
}

fn digit(d: u64) -> (c: char)
    requires
        d < 10,
    ensures
        c == digit_char(d as int),
{
    if d == 0 { '0' }
    else if d == 1 { '1' }
    else if d == 2 { '2' }
    else if d == 3 { '3' }
    else if d == 4 { '4' }
    else if d == 5 { '5' }
    else if d == 6 { '6' }
    else if d == 7 { '7' }
    else if d == 8 { '8' }
    else { '9' }
}

/// Appends the decimal digits of `n`.
pub fn push_nat(out: &mut String, n: u64)
    ensures
        final(out)@ == old(out)@ + nat_text(n as nat),
    decreases n,
{
    if n >= 10 {
        push_nat(out, n / 10);
    }
    push_char(out, digit(n % 10));
    proof {
        if n >= 10 {
            assert(nat_text(n as nat) == nat_text((n / 10) as nat).push(digit_char((n % 10) as int)));
        }
        assert(final(out)@ =~= old(out)@ + nat_text(n as nat));
    }
}

/// Appends the decimal text of `i`.
pub fn push_int(out: &mut String, i: i64)
    ensures
        final(out)@ == old(out)@ + int_text(i as int),
{
    if i < 0 {
        push_char(out, '-');
        let a: i128 = -(i as i128);
        push_nat(out, a as u64);
        assert(final(out)@ =~= old(out)@ + int_text(i as int));
    } else {
        push_nat(out, i as u64);
    }
}

/// Appends an amount of `cents` cents with two decimal places.
pub fn push_cents(out: &mut String, cents: i64)
    ensures
        final(out)@ == old(out)@ + cents_text(cents as int),
{
    let ghost start = out@;
    let a: u64 = if cents < 0 {
        push_char(out, '-');
        (-(cents as i128)) as u64
    } else {
        cents as u64
    };
    push_nat(out, a / 100);
    push_char(out, '.');
    push_char(out, digit((a % 100) / 10));
    push_char(out, digit(a % 10));
    assert(final(out)@ =~= start + cents_text(cents as int));
}

/// Decimal text of `i`.
pub fn int_to_string(i: i64) -> (r: String)
    ensures
        r@ == int_text(i as int),
{
    let mut s = String::new();
    push_int(&mut s, i);
    assert(s@ =~= int_text(i as int));
    s
}

/// An amount of `cents` cents with two decimal places: `123450` is
/// `1234.50`, `-5` is `-0.05`.
pub fn cents_to_string(cents: i64) -> (r: String)
    ensures
        r@ == cents_text(cents as int),
{
    let mut s = String::new();
    push_cents(&mut s, cents);
    assert(s@ =~= cents_text(cents as int));
    s
}

} // verus!
