//! The shape of the JSON text: it holds no whitespace, and the commas outside
//! its quoted strings separate exactly the elements of the array.

use vstd::prelude::*;
use crate::classify::FizzBuzzValue;
use crate::decimal::{decimal_text, digits};
use crate::json::{array_text, fizz_buzz_json_text, joined_text, value_text};
use crate::sequence::{fizz_buzz_values, sequence_len};

verus! {

/// A space, a tab, a line feed or a carriage return.
pub open spec fn is_whitespace(c: char) -> bool {
    c == ' ' || c == '\t' || c == '\n' || c == '\r'
}

/// No character of `s` is whitespace.
pub open spec fn no_whitespace(s: Seq<char>) -> bool {
    forall|i: int| 0 <= i < s.len() ==> !is_whitespace(#[trigger] s[i])
}

/// Whether a reader that was inside a quoted string (`inside`) before `s` is
/// inside one after it: every double quote switches sides.
pub open spec fn inside_after(s: Seq<char>, inside: bool) -> bool
    decreases s.len(),
{
    if s.len() == 0 {
        inside
    } else {
        inside_after(s.drop_last(), inside) != (s.last() == '"')
    }
}

/// How many commas of `s` the same reader meets outside quoted strings.
pub open spec fn commas_outside(s: Seq<char>, inside: bool) -> nat
    decreases s.len(),
{
    if s.len() == 0 {
        0
    } else {
        let before = commas_outside(s.drop_last(), inside);
        if s.last() == ',' && !inside_after(s.drop_last(), inside) {
            before + 1
        } else {
            before
        }
    }
}

/// How many commas of `s` stand outside quoted strings, read from the start.
pub open spec fn commas_outside_strings(s: Seq<char>) -> nat {
    commas_outside(s, false)
}

/// Neither a quote, nor a comma, nor whitespace.
spec fn plain(c: char) -> bool {
    c != '"' && c != ',' && !is_whitespace(c)
}

spec fn all_plain(s: Seq<char>) -> bool {
    forall|i: int| 0 <= i < s.len() ==> plain(#[trigger] s[i])
}

/// Reading `a + b` is reading `a` and then `b`.
proof fn lemma_read_concat(a: Seq<char>, b: Seq<char>, inside: bool)
    ensures
        inside_after(a + b, inside) == inside_after(b, inside_after(a, inside)),
        commas_outside(a + b, inside) == commas_outside(a, inside) + commas_outside(
            b,
            inside_after(a, inside),
        ),
    decreases b.len(),
{
    if b.len() == 0 {
        assert(a + b =~= a);
    } else {
        assert((a + b).drop_last() =~= a + b.drop_last());
        assert((a + b).last() == b.last());
        lemma_read_concat(a, b.drop_last(), inside);
    }
}

/// Reading a single character.
proof fn lemma_read_single(c: char, inside: bool)
    ensures
        inside_after(seq![c], inside) == (inside != (c == '"')),
        commas_outside(seq![c], inside) == if c == ',' && !inside {
            1nat
        } else {
            0nat
        },
{
    let s = seq![c];
    assert(s.drop_last() =~= Seq::<char>::empty());
    assert(s.last() == c);
    assert(inside_after(Seq::<char>::empty(), inside) == inside);
    assert(commas_outside(Seq::<char>::empty(), inside) == 0);
}

/// Plain characters leave the reader where it was and count for nothing.
proof fn lemma_read_plain(s: Seq<char>, inside: bool)
    requires
        all_plain(s),
    ensures
        inside_after(s, inside) == inside,
        commas_outside(s, inside) == 0,
        no_whitespace(s),
    decreases s.len(),
{
    if s.len() > 0 {
        assert(plain(s.last()));
        assert(all_plain(s.drop_last())) by {
            assert forall|i: int| 0 <= i < s.drop_last().len() implies plain(
                #[trigger] s.drop_last()[i],
            ) by {
                assert(s.drop_last()[i] == s[i]);
            }
        }
        lemma_read_plain(s.drop_last(), inside);
    }
    assert forall|i: int| 0 <= i < s.len() implies !is_whitespace(#[trigger] s[i]) by {
        assert(plain(s[i]));
    }
}

/// A quoted run of plain characters is read from outside to outside, and
/// holds no comma that counts.
proof fn lemma_read_quoted(body: Seq<char>)
    requires
        all_plain(body),
    ensures
        inside_after(seq!['"'] + body + seq!['"'], false) == false,
        commas_outside(seq!['"'] + body + seq!['"'], false) == 0,
        no_whitespace(seq!['"'] + body + seq!['"']),
{
    let quote = seq!['"'];
    lemma_read_single('"', false);
    lemma_read_single('"', true);
    lemma_read_plain(body, true);
    lemma_read_concat(quote, body, false);
    lemma_read_concat(quote + body, quote, false);
    assert forall|i: int| 0 <= i < (quote + body + quote).len() implies !is_whitespace(
        #[trigger] (quote + body + quote)[i],
    ) by {
        if 1 <= i < 1 + body.len() {
            assert((quote + body + quote)[i] == body[i - 1]);
            assert(plain(body[i - 1]));
        }
    }
}

proof fn lemma_digits_plain(m: nat)
    ensures
        all_plain(digits(m)),
    decreases m,
{
    if m >= 10 {
        lemma_digits_plain(m / 10);
    }
}

/// One value's text is read from outside to outside, holds no comma that
/// counts, and no whitespace.
pub proof fn lemma_value_text_shape(value: FizzBuzzValue)
    ensures
        !inside_after(value_text(value), false),
        commas_outside_strings(value_text(value)) == 0,
        no_whitespace(value_text(value)),
{
    match value {
        FizzBuzzValue::Number(k) => {
            if k < 0 {
                lemma_digits_plain((-k) as nat);
            } else {
                lemma_digits_plain(k as nat);
            }
            assert(all_plain(decimal_text(k as int)));
            lemma_read_plain(decimal_text(k as int), false);
        },
        FizzBuzzValue::Fizz => {
            let body = seq!['F', 'i', 'z', 'z'];
            assert(value_text(value) =~= seq!['"'] + body + seq!['"']);
            lemma_read_quoted(body);
        },
        FizzBuzzValue::Buzz => {
            let body = seq!['B', 'u', 'z', 'z'];
            assert(value_text(value) =~= seq!['"'] + body + seq!['"']);
            lemma_read_quoted(body);
        },
        FizzBuzzValue::FizzBuzz => {
            let body = seq!['F', 'i', 'z', 'z', 'B', 'u', 'z', 'z'];
            assert(value_text(value) =~= seq!['"'] + body + seq!['"']);
            lemma_read_quoted(body);
        },
    }
}

/// Between the brackets, whatever the values: no whitespace, every quoted
/// string closed, and one comma outside strings for each value after the
/// first.
pub proof fn lemma_joined_text_shape(values: Seq<FizzBuzzValue>)
    ensures
        no_whitespace(joined_text(values)),
        !inside_after(joined_text(values), false),
        values.len() >= 1 ==> commas_outside_strings(joined_text(values)) + 1 == values.len(),
        values.len() == 0 ==> joined_text(values) == Seq::<char>::empty(),
    decreases values.len(),
{
    if values.len() == 1 {
        lemma_value_text_shape(values[0]);
    } else if values.len() > 1 {
        let front = joined_text(values.drop_last());
        let comma = seq![','];
        let back = value_text(values.last());
        lemma_joined_text_shape(values.drop_last());
        lemma_value_text_shape(values.last());
        lemma_read_single(',', false);
        lemma_read_concat(front, comma, false);
        lemma_read_concat(front + comma, back, false);
        assert forall|i: int| 0 <= i < (front + comma + back).len() implies !is_whitespace(
            #[trigger] (front + comma + back)[i],
        ) by {
            if i < front.len() {
                assert((front + comma + back)[i] == front[i]);
            } else if i == front.len() {
                assert((front + comma + back)[i] == ',');
            } else {
                assert((front + comma + back)[i] == back[i - front.len() - 1]);
            }
        }
    }
}

/// The JSON array literal of any sequence of values holds no whitespace at
/// all, starts with `[` and ends with `]`; what stands between the two is the
/// joined text, in which the commas outside quoted strings, plus one, count
/// the values of a sequence that is not empty.
pub proof fn lemma_array_text_shape(values: Seq<FizzBuzzValue>)
    ensures
        no_whitespace(array_text(values)),
        array_text(values).len() >= 2,
        array_text(values).first() == '[',
        array_text(values).last() == ']',
        array_text(values).subrange(1, array_text(values).len() - 1) == joined_text(values),
        values.len() >= 1 ==> commas_outside_strings(
            array_text(values).subrange(1, array_text(values).len() - 1),
        ) + 1 == values.len(),
        values.len() == 0 ==> array_text(values) == seq!['[', ']'],
{
    let text = array_text(values);
    let inner = joined_text(values);
    lemma_joined_text_shape(values);
    assert(text.subrange(1, text.len() - 1) =~= inner);
    assert forall|i: int| 0 <= i < text.len() implies !is_whitespace(#[trigger] text[i]) by {
        if 1 <= i < 1 + inner.len() {
            assert(text[i] == inner[i - 1]);
        }
    }
    if values.len() == 0 {
        assert(text =~= seq!['[', ']']);
    }
}

/// The JSON text for `n` holds no whitespace, inside quoted strings or
/// outside them. For `n` of at least one, the commas outside quoted strings
/// between the brackets, plus one, are `n`; for a zero or negative `n` the
/// text is `[]`, which holds no comma.
pub proof fn lemma_json_text_shape(n: int)
    ensures
        no_whitespace(fizz_buzz_json_text(n)),
        fizz_buzz_json_text(n).first() == '[',
        fizz_buzz_json_text(n).last() == ']',
        n >= 1 ==> commas_outside_strings(
            fizz_buzz_json_text(n).subrange(1, fizz_buzz_json_text(n).len() - 1),
        ) + 1 == n,
        n <= 0 ==> fizz_buzz_json_text(n) == seq!['[', ']'],
{
    lemma_array_text_shape(fizz_buzz_values(n));
    assert(fizz_buzz_values(n).len() == sequence_len(n));
}

} // verus!
