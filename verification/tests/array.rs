use fizzbuzz::{fizz_buzz_core, fizz_buzz_rust, to_element, to_elements, Element, FizzBuzzValue};

#[test]
fn array_empty() {
    assert_eq!(fizz_buzz_rust(0), vec![]);
}

#[test]
fn array_negative_is_empty() {
    assert_eq!(fizz_buzz_rust(-1), vec![]);
    assert_eq!(fizz_buzz_rust(i32::MIN), vec![]);
}

#[test]
fn array_full_cycle() {
    let expected = vec![
        Element::Integer(1),
        Element::Integer(2),
        Element::Text("Fizz"),
        Element::Integer(4),
        Element::Text("Buzz"),
        Element::Text("Fizz"),
        Element::Integer(7),
        Element::Integer(8),
        Element::Text("Fizz"),
        Element::Text("Buzz"),
        Element::Integer(11),
        Element::Text("Fizz"),
        Element::Integer(13),
        Element::Integer(14),
        Element::Text("FizzBuzz"),
    ];
    assert_eq!(fizz_buzz_rust(15), expected);
}

#[test]
fn array_length_equals_n() {
    for n in 0..=100 {
        assert_eq!(fizz_buzz_rust(n).len(), n as usize);
    }
    assert_eq!(fizz_buzz_rust(1000).len(), 1000);
}

#[test]
fn array_every_cell_by_divisibility() {
    let n: i32 = 150;
    let cells = fizz_buzz_rust(n);
    for i in 1..=n {
        let expected = if i % 15 == 0 {
            Element::Text("FizzBuzz")
        } else if i % 3 == 0 {
            Element::Text("Fizz")
        } else if i % 5 == 0 {
            Element::Text("Buzz")
        } else {
            Element::Integer(i)
        };
        assert_eq!(cells[(i - 1) as usize], expected, "cell for {i}");
    }
}

#[test]
fn to_element_each_variant() {
    assert_eq!(to_element(&FizzBuzzValue::Number(8)), Element::Integer(8));
    assert_eq!(to_element(&FizzBuzzValue::Number(-8)), Element::Integer(-8));
    assert_eq!(to_element(&FizzBuzzValue::Fizz), Element::Text("Fizz"));
    assert_eq!(to_element(&FizzBuzzValue::Buzz), Element::Text("Buzz"));
    assert_eq!(to_element(&FizzBuzzValue::FizzBuzz), Element::Text("FizzBuzz"));
}

#[test]
fn to_elements_keeps_order_and_length() {
    let values = vec![FizzBuzzValue::Buzz, FizzBuzzValue::Number(3), FizzBuzzValue::Fizz];
    assert_eq!(
        to_elements(&values),
        vec![Element::Text("Buzz"), Element::Integer(3), Element::Text("Fizz")]
    );
    assert_eq!(to_elements(&vec![]), vec![]);
    assert_eq!(to_elements(&fizz_buzz_core(40)), fizz_buzz_rust(40));
}
