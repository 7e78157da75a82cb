//! Building text: characters appended to a string, and integers in decimal.

use vstd::prelude::*;

verus! {

/// `String::push`: the character is appended.
#[verifier::external_body]
pub(crate) fn push_char(text: &mut String, c: char)
    ensures
        final(text)@ == old(text)@.push(c),
{
    text.push(c)
}

/// The character of the decimal digit `d` (0 to 9).
pub open spec fn digit_char(d: int) -> char {
    ((48 + d) as u8) as char
}

/// The decimal digits of `n`, the highest first, with no leading zero.
pub open spec fn decimal_digits(n: nat) -> Seq<char>
    decreases n,
{
    if n < 10 {
        seq![digit_char(n as int)]
    } else {
        decimal_digits(n / 10).push(digit_char((n % 10) as int))
    }
}

/// The decimal form of `n`, with a minus sign where it is negative.
pub open spec fn decimal(n: int) -> Seq<char> {
    if n < 0 {
        seq!['-'] + decimal_digits((-n) as nat)
    } else {
        decimal_digits(n as nat)
    }
}

fn digit_of(d: u8) -> (c: char)
    requires
        d < 10,
    ensures
        c == digit_char(d as int),
{
    (48 + d) as char
}

/// Appends the decimal digits of `value`.
pub fn push_unsigned(text: &mut String, value: u128)
    ensures
        final(text)@ == old(text)@ + decimal_digits(value as nat),
{
    let mut rest: u128 = value;
    let mut low: Vec<char> = Vec::new();
    while rest >= 10
        invariant
            decimal_digits(value as nat) == decimal_digits(rest as nat) + low@.reverse(),
        decreases rest,
    {
        let digit = digit_of((rest % 10) as u8);
        proof {
            let next = low@.push(digit);
            assert(next.reverse() =~= seq![digit] + low@.reverse());
            assert(decimal_digits(rest as nat) == decimal_digits((rest / 10) as nat).push(digit));
            assert(decimal_digits(rest as nat) + low@.reverse() =~= decimal_digits(
                (rest / 10) as nat,
            ) + next.reverse());
        }
        low.push(digit);
        rest = rest / 10;
    }
    push_char(text, digit_of(rest as u8));
    let mut left: usize = low.len();
    while left > 0
        invariant
            left <= low@.len(),
            text@ == old(text)@ + seq![digit_char(rest as int)] + low@.reverse().subrange(
                0,
                low@.len() - left,
            ),
        decreases left,
    {
        left -= 1;
        push_char(text, low[left]);
        proof {
            let turned = low@.reverse();
            let done = low@.len() - left;
            assert(turned[done - 1] == low@[left as int]);
            assert(turned.subrange(0, done) =~= turned.subrange(0, done - 1).push(
                low@[left as int],
            ));
        }
    }
    proof {
        assert(low@.reverse().subrange(0, low@.len() as int) =~= low@.reverse());
        assert(decimal_digits(rest as nat) =~= seq![digit_char(rest as int)]);
        assert(text@ =~= old(text)@ + decimal_digits(value as nat));
    }
}

/// Appends the decimal form of `value`.
pub fn push_decimal(text: &mut String, value: i64)
    ensures
        final(text)@ == old(text)@ + decimal(value as int),
{
    if value < 0 {
        push_char(text, '-');
        let magnitude: u128 = (-(value as i128)) as u128;
        push_unsigned(text, magnitude);
        assert(text@ =~= old(text)@ + decimal(value as int));
    } else {
        push_unsigned(text, value as u128);
    }
}

} // verus!
