//! The sequence builder: the classifier applied to `1, 2, .., n`.

use vstd::prelude::*;
use crate::classify::{classify, classify_value, FizzBuzzValue};

verus! {

/// How many values the sequence for `n` holds: `n` itself, and none where `n`
/// is zero or negative.
pub open spec fn sequence_len(n: int) -> nat {
    if n > 0 {
        n as nat
    } else {
        0
    }
}

/// The sequence for `n`: position `i` (counted from zero) holds the category
/// of the integer `i + 1`.
pub open spec fn fizz_buzz_values(n: int) -> Seq<FizzBuzzValue> {
    Seq::new(sequence_len(n), |i: int| classify_value(i + 1))
}

/// Builds the sequence for `n`. A zero or negative `n` gives the empty
/// sequence; it is not an error.
pub fn fizz_buzz_core(n: i32) -> (values: Vec<FizzBuzzValue>)
    ensures
        values@ == fizz_buzz_values(n as int),
        values@.len() == sequence_len(n as int),
        n >= 0 ==> values@.len() == n,
        forall|i: int|
            1 <= i <= n ==> (#[trigger] values@[i - 1] == FizzBuzzValue::FizzBuzz <==> i % 15 == 0),
        forall|i: int|
            1 <= i <= n ==> (#[trigger] values@[i - 1] == FizzBuzzValue::Fizz <==> i % 3 == 0 && i % 15
                != 0),
        forall|i: int|
            1 <= i <= n ==> (#[trigger] values@[i - 1] == FizzBuzzValue::Buzz <==> i % 5 == 0 && i % 15
                != 0),
        forall|i: int|
            1 <= i <= n && i % 3 != 0 && i % 5 != 0 ==> #[trigger] values@[i - 1]
                == FizzBuzzValue::Number(i as i32),
{
    let mut values: Vec<FizzBuzzValue> = Vec::new();
    let mut k: i32 = 0;
    while k < n
        invariant
            0 <= k,
            k <= n || k == 0,
            values@.len() == k,
            forall|j: int| 0 <= j < k ==> #[trigger] values@[j] == classify_value(j + 1),
        decreases n - k,
    {
        k = k + 1;
        values.push(classify(k));
    }
    assert(values@ =~= fizz_buzz_values(n as int));
    values
}

} // verus!
