//! Rendering a sequence as a JSON array literal: one string, no whitespace.

use vstd::prelude::*;
use crate::classify::FizzBuzzValue;
use crate::decimal::{append_decimal, decimal_text};
use crate::sequence::{fizz_buzz_core, fizz_buzz_values};

verus! {

/// The JSON text of one value: a number in decimal, a category as its name in
/// double quotes.
pub open spec fn value_text(value: FizzBuzzValue) -> Seq<char> {
    match value {
        FizzBuzzValue::Number(k) => decimal_text(k as int),
        FizzBuzzValue::Fizz => seq!['"', 'F', 'i', 'z', 'z', '"'],
        FizzBuzzValue::Buzz => seq!['"', 'B', 'u', 'z', 'z', '"'],
        FizzBuzzValue::FizzBuzz => seq!['"', 'F', 'i', 'z', 'z', 'B', 'u', 'z', 'z', '"'],
    }
}

/// The texts of `values` in order, with a single comma between neighbours and
/// none at either end.
pub open spec fn joined_text(values: Seq<FizzBuzzValue>) -> Seq<char>
    decreases values.len(),
{
    if values.len() == 0 {
        Seq::empty()
    } else if values.len() == 1 {
        value_text(values[0])
    } else {
        joined_text(values.drop_last()) + seq![','] + value_text(values.last())
    }
}

/// The JSON array literal of `values`: the joined texts between `[` and `]`.
pub open spec fn array_text(values: Seq<FizzBuzzValue>) -> Seq<char> {
    seq!['['] + joined_text(values) + seq![']']
}

/// The JSON array literal of the sequence for `n`.
pub open spec fn fizz_buzz_json_text(n: int) -> Seq<char> {
    array_text(fizz_buzz_values(n))
}

/// Appends the JSON text of `value` to `out`.
pub fn append_value(out: &mut String, value: &FizzBuzzValue)
    ensures
        final(out)@ == old(out)@ + value_text(*value),
{
    match value {
        FizzBuzzValue::FizzBuzz => {
            proof {
                reveal_strlit("\"FizzBuzz\"");
            }
            out.append("\"FizzBuzz\"");
            assert(final(out)@ =~= old(out)@ + value_text(*value));
        },
        FizzBuzzValue::Fizz => {
            proof {
                reveal_strlit("\"Fizz\"");
            }
            out.append("\"Fizz\"");
            assert(final(out)@ =~= old(out)@ + value_text(*value));
        },
        FizzBuzzValue::Buzz => {
            proof {
                reveal_strlit("\"Buzz\"");
            }
            out.append("\"Buzz\"");
            assert(final(out)@ =~= old(out)@ + value_text(*value));
        },
        FizzBuzzValue::Number(num) => {
            append_decimal(out, *num);
        },
    }
}

/// Renders `values` as a JSON array literal. The empty sequence gives `[]`.
pub fn to_json(values: &Vec<FizzBuzzValue>) -> (text: String)
    ensures
        text@ == array_text(values@),
{
    let mut result = String::new();
    proof {
        reveal_strlit("[");
        reveal_strlit("]");
    }
    result.append("[");
    assert(result@ =~= seq!['['] + joined_text(values@.take(0)));
    let mut i: usize = 0;
    while i < values.len()
        invariant
            i <= values@.len(),
            result@ == seq!['['] + joined_text(values@.take(i as int)),
        decreases values@.len() - i,
    {
        let ghost before = values@.take(i as int);
        let ghost after = values@.take(i + 1);
        proof {
            // One more value: the joined text grows by a comma, unless it was
            // empty, and by that value's text.
            assert(after.drop_last() =~= before);
            assert(after.last() == values@[i as int]);
        }
        if i > 0 {
            proof {
                reveal_strlit(",");
            }
            result.append(",");
        }
        append_value(&mut result, &values[i]);
        assert(result@ =~= seq!['['] + joined_text(after));
        i += 1;
    }
    assert(values@.take(i as int) =~= values@);
    result.append("]");
    assert(result@ =~= array_text(values@));
    result
}

/// The JSON array literal of the sequence for `n`. A zero or negative `n`
/// gives `[]`.
pub fn fizz_buzz_rust_json(n: i32) -> (text: String)
    ensures
        text@ == fizz_buzz_json_text(n as int),
{
    let values = fizz_buzz_core(n);
    to_json(&values)
}

} // verus!
