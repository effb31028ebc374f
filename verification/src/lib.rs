//! FizzBuzz over the integers `1..=n`, with two renderings of the resulting
//! sequence: an array of dynamically typed elements and a JSON array literal.
//!
//! Every function is stated against a mathematical model and proved by Verus.

pub mod array;
pub mod classify;
pub mod decimal;
pub mod json;
pub mod sequence;
pub mod structure;

pub use array::{fizz_buzz_rust, to_element, to_elements, Element};
pub use classify::{classify, FizzBuzzValue};
pub use decimal::append_decimal;
pub use json::{append_value, fizz_buzz_rust_json, to_json};
pub use sequence::fizz_buzz_core;
