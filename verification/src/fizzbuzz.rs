//! FizzBuzz, written into a buffer that the caller owns and reuses.

use vstd::prelude::*;

verus! {

/// `String::clear` empties the string.
pub assume_specification[ String::clear ](s: &mut String)
    ensures
        final(s)@ == Seq::<char>::empty(),
;

/// `String::push_str` appends the characters of `text`.
pub assume_specification[ String::push_str ](s: &mut String, text: &str)
    ensures
        final(s)@ == old(s)@ + text@,
;

/// `String::push` appends the one character `c`.
pub assume_specification[ String::push ](s: &mut String, c: char)
    ensures
        final(s)@ == old(s)@.push(c),
;

/// The character of the decimal digit `d`.
pub open spec fn digit_char(d: nat) -> char
    recommends
        d < 10,
{
    ('0' as nat + d) as char
}

/// The decimal notation of `n`, without leading zeros.
pub open spec fn decimal(n: nat) -> Seq<char>
    decreases n,
{
    if n < 10 {
        seq![digit_char(n)]
    } else {
        decimal(n / 10).push(digit_char(n % 10))
    }
}

/// What FizzBuzz says for `i`: `FizzBuzz` for a multiple of both 3 and 5, `Fizz` for one
/// of 3 alone, `Buzz` for one of 5 alone, and the number in decimal notation otherwise.
pub open spec fn fizz_buzz_text(i: nat) -> Seq<char> {
    if i % 3 == 0 && i % 5 == 0 {
        "FizzBuzz"@
    } else if i % 3 == 0 {
        "Fizz"@
    } else if i % 5 == 0 {
        "Buzz"@
    } else {
        decimal(i)
    }
}

/// Appends the decimal notation of `n` to `result`.
fn push_decimal(n: u32, result: &mut String)
    ensures
        final(result)@ == old(result)@ + decimal(n as nat),
    decreases n,
{
    if n >= 10 {
        push_decimal(n / 10, result);
    }
    let digit: u8 = (n % 10) as u8;
    result.push((48 + digit) as char);
}

/// Replaces what `result` holds by what FizzBuzz says for `i`.
pub fn fizz_buzz(i: u32, result: &mut String)
    ensures
        final(result)@ == fizz_buzz_text(i as nat),
{
    result.clear();
    match (i % 3 == 0, i % 5 == 0) {
        (true, true) => result.push_str("FizzBuzz"),
        (true, false) => result.push_str("Fizz"),
        (false, true) => result.push_str("Buzz"),
        (false, false) => push_decimal(i, result),
    }
}

} // verus!
