//! Rendering a sequence as an array of dynamically typed elements: a numeric
//! cell for a number, a string cell for a category.

use vstd::prelude::*;
use crate::classify::{classify_value, FizzBuzzValue};
use crate::sequence::{fizz_buzz_core, sequence_len};

verus! {

/// One cell of the array, as a host with dynamic types receives it.
#[derive(Debug, Clone, Copy, PartialEq, Eq)]
pub enum Element {
    /// A numeric cell.
    Integer(i32),
    /// A string cell.
    Text(&'static str),
}

/// What a cell holds, with the string as the sequence of its characters.
pub enum ElementView {
    Integer(i32),
    Text(Seq<char>),
}

impl View for Element {
    type V = ElementView;

    open spec fn view(&self) -> ElementView {
        match *self {
            Element::Integer(k) => ElementView::Integer(k),
            Element::Text(s) => ElementView::Text(s@),
        }
    }
}

/// The cell that stands for `value`: the number itself, or the name of the
/// category, without quotes.
pub open spec fn element_of(value: FizzBuzzValue) -> ElementView {
    match value {
        FizzBuzzValue::Number(k) => ElementView::Integer(k),
        FizzBuzzValue::Fizz => ElementView::Text(seq!['F', 'i', 'z', 'z']),
        FizzBuzzValue::Buzz => ElementView::Text(seq!['B', 'u', 'z', 'z']),
        FizzBuzzValue::FizzBuzz => ElementView::Text(
            seq!['F', 'i', 'z', 'z', 'B', 'u', 'z', 'z'],
        ),
    }
}

/// The cell for one value.
pub fn to_element(value: &FizzBuzzValue) -> (element: Element)
    ensures
        element@ == element_of(*value),
{
    match value {
        FizzBuzzValue::FizzBuzz => {
            proof {
                reveal_strlit("FizzBuzz");
            }
            let name = "FizzBuzz";
            assert(name@ =~= seq!['F', 'i', 'z', 'z', 'B', 'u', 'z', 'z']);
            Element::Text(name)
        },
        FizzBuzzValue::Fizz => {
            proof {
                reveal_strlit("Fizz");
            }
            let name = "Fizz";
            assert(name@ =~= seq!['F', 'i', 'z', 'z']);
            Element::Text(name)
        },
        FizzBuzzValue::Buzz => {
            proof {
                reveal_strlit("Buzz");
            }
            let name = "Buzz";
            assert(name@ =~= seq!['B', 'u', 'z', 'z']);
            Element::Text(name)
        },
        FizzBuzzValue::Number(num) => Element::Integer(*num),
    }
}

/// The cells for `values`, one for each value and in the same order.
pub fn to_elements(values: &Vec<FizzBuzzValue>) -> (elements: Vec<Element>)
    ensures
        elements@.len() == values@.len(),
        forall|i: int| 0 <= i < values@.len() ==> (#[trigger] elements@[i])@ == element_of(values@[i]),
{
    let mut elements: Vec<Element> = Vec::new();
    let mut i: usize = 0;
    while i < values.len()
        invariant
            i <= values@.len(),
            elements@.len() == i,
            forall|j: int| 0 <= j < i ==> (#[trigger] elements@[j])@ == element_of(values@[j]),
        decreases values@.len() - i,
    {
        elements.push(to_element(&values[i]));
        i += 1;
    }
    elements
}

/// The array for `n`: as many cells as the sequence for `n` has values, the
/// cell at position `i` standing for the integer `i + 1`. A zero or negative
/// `n` gives the empty array.
pub fn fizz_buzz_rust(n: i32) -> (elements: Vec<Element>)
    ensures
        elements@.len() == sequence_len(n as int),
        n >= 0 ==> elements@.len() == n,
        forall|i: int|
            0 <= i < elements@.len() ==> (#[trigger] elements@[i])@ == element_of(
                classify_value(i + 1),
            ),
{
    let values = fizz_buzz_core(n);
    to_elements(&values)
}

} // verus!
