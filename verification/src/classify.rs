//! The classifier: which of the four categories an integer falls under.

use vstd::prelude::*;

verus! {

/// What an integer is classified as. Exactly one variant holds of each integer.
#[derive(Debug, Clone, Copy, PartialEq, Eq, Structural)]
pub enum FizzBuzzValue {
    /// Divisible by neither 3 nor 5; carries the integer itself.
    Number(i32),
    /// Divisible by 3, not by 5.
    Fizz,
    /// Divisible by 5, not by 3.
    Buzz,
    /// Divisible by 15.
    FizzBuzz,
}

/// The category of `n`: divisibility by 15 is tried first, then by 3, then by 5.
pub open spec fn classify_value(n: int) -> FizzBuzzValue {
    if n % 15 == 0 {
        FizzBuzzValue::FizzBuzz
    } else if n % 3 == 0 {
        FizzBuzzValue::Fizz
    } else if n % 5 == 0 {
        FizzBuzzValue::Buzz
    } else {
        FizzBuzzValue::Number(n as i32)
    }
}

/// The four categories by divisibility alone: 15 divides `n` exactly where
/// both 3 and 5 do, so the order in which the rule tries them settles every
/// integer.
pub proof fn lemma_classify_cases(n: int)
    ensures
        classify_value(n) == FizzBuzzValue::FizzBuzz <==> n % 15 == 0,
        classify_value(n) == FizzBuzzValue::Fizz <==> n % 3 == 0 && n % 15 != 0,
        classify_value(n) == FizzBuzzValue::Buzz <==> n % 5 == 0 && n % 15 != 0,
        n % 3 != 0 && n % 5 != 0 ==> classify_value(n) == FizzBuzzValue::Number(n as i32),
        n % 15 == 0 <==> n % 3 == 0 && n % 5 == 0,
{
}

/// Classifies `n`. Total: every `i32`, non-positive ones included, is accepted.
pub fn classify(n: i32) -> (value: FizzBuzzValue)
    ensures
        value == classify_value(n as int),
        value == FizzBuzzValue::FizzBuzz <==> n % 15 == 0,
        value == FizzBuzzValue::Fizz <==> n % 3 == 0 && n % 15 != 0,
        value == FizzBuzzValue::Buzz <==> n % 5 == 0 && n % 15 != 0,
        n % 3 != 0 && n % 5 != 0 ==> value == FizzBuzzValue::Number(n),
{
    let value = if n % 15 == 0 {
        FizzBuzzValue::FizzBuzz
    } else if n % 3 == 0 {
        FizzBuzzValue::Fizz
    } else if n % 5 == 0 {
        FizzBuzzValue::Buzz
    } else {
        FizzBuzzValue::Number(n)
    };
    assert(value == classify_value(n as int));
    proof {
        lemma_classify_cases(n as int);
    }
    value
}

} // verus!
