use fizzbuzz::{classify, FizzBuzzValue};

#[test]
fn classify_number() {
    assert_eq!(classify(1), FizzBuzzValue::Number(1));
    assert_eq!(classify(2), FizzBuzzValue::Number(2));
    assert_eq!(classify(4), FizzBuzzValue::Number(4));
    assert_eq!(classify(7), FizzBuzzValue::Number(7));
}

#[test]
fn classify_fizz() {
    for n in [3, 6, 9, 12, 18, 21, 24, 27, 33] {
        assert_eq!(classify(n), FizzBuzzValue::Fizz, "expected Fizz at {n}");
    }
}

#[test]
fn classify_buzz() {
    for n in [5, 10, 20, 25, 35, 40, 50] {
        assert_eq!(classify(n), FizzBuzzValue::Buzz, "expected Buzz at {n}");
    }
}

#[test]
fn classify_fizzbuzz() {
    for n in [15, 30, 45, 60, 75, 90] {
        assert_eq!(
            classify(n),
            FizzBuzzValue::FizzBuzz,
            "expected FizzBuzz at {n}"
        );
    }
}

#[test]
fn classify_zero_is_fizzbuzz() {
    assert_eq!(classify(0), FizzBuzzValue::FizzBuzz);
}

#[test]
fn classify_negative_follows_the_same_rule() {
    assert_eq!(classify(-1), FizzBuzzValue::Number(-1));
    assert_eq!(classify(-3), FizzBuzzValue::Fizz);
    assert_eq!(classify(-5), FizzBuzzValue::Buzz);
    assert_eq!(classify(-7), FizzBuzzValue::Number(-7));
    assert_eq!(classify(-15), FizzBuzzValue::FizzBuzz);
    assert_eq!(classify(-30), FizzBuzzValue::FizzBuzz);
}

#[test]
fn classify_extremes() {
    // 2147483647 = 7 * 306783378 + 1 is divisible by neither 3 nor 5.
    assert_eq!(classify(i32::MAX), FizzBuzzValue::Number(i32::MAX));
    // 2147483648 has digit sum 47 and ends in 8.
    assert_eq!(classify(i32::MIN), FizzBuzzValue::Number(i32::MIN));
    // 2147483645 ends in 5 and has digit sum 44.
    assert_eq!(classify(2147483645), FizzBuzzValue::Buzz);
    // 2147483646 has digit sum 45 and ends in 6.
    assert_eq!(classify(2147483646), FizzBuzzValue::Fizz);
    // 2147483640 = 15 * 143165576.
    assert_eq!(classify(2147483640), FizzBuzzValue::FizzBuzz);
}

#[test]
fn classify_agrees_with_divisibility() {
    for n in -200..=200 {
        let expected = if n % 15 == 0 {
            FizzBuzzValue::FizzBuzz
        } else if n % 3 == 0 {
            FizzBuzzValue::Fizz
        } else if n % 5 == 0 {
            FizzBuzzValue::Buzz
        } else {
            FizzBuzzValue::Number(n)
        };
        assert_eq!(classify(n), expected, "at {n}");
        assert_eq!(classify(n) == FizzBuzzValue::FizzBuzz, n % 3 == 0 && n % 5 == 0);
    }
}
