//! Text helpers shared by the code generators and the endpoints.

use vstd::prelude::*;

verus! {

/// The upper camel case form of `word`, as the `heck` crate computes it.
pub uninterp spec fn upper_camel_case(word: Seq<char>) -> Seq<char>;

/// Calls `heck::ToUpperCamelCase::to_upper_camel_case` on `word`.
///
/// Trusted: the result is the upper camel case form of the argument. `heck` computes it from
/// the characters of the argument alone.
#[verifier::external_body]
pub(crate) fn to_upper_camel_case(word: &str) -> (camel: String)
    ensures
        camel@ == upper_camel_case(word@),
{
    heck::ToUpperCamelCase::to_upper_camel_case(word)
}

/// `head` followed by `tail`.
pub fn joined(head: &str, tail: &str) -> (text: String)
    ensures
        text@ == head@ + tail@,
{
    let mut text = String::from_str(head);
    text.append(tail);
    text
}

/// A value with a textual form.
pub trait Describe {
    /// The textual form.
    spec fn text(&self) -> Seq<char>;

    fn describe(&self) -> (text: String)
        ensures
            text@ == self.text(),
    ;
}

impl Describe for String {
    open spec fn text(&self) -> Seq<char> {
        self@
    }

    fn describe(&self) -> (text: String) {
        self.clone()
    }
}

impl Describe for &'static str {
    open spec fn text(&self) -> Seq<char> {
        self@
    }

    fn describe(&self) -> (text: String) {
        String::from_str(self)
    }
}

/// The character of the decimal digit `value`.
pub open spec fn digit(value: int) -> char {
    if value == 0 {
        '0'
    } else if value == 1 {
        '1'
    } else if value == 2 {
        '2'
    } else if value == 3 {
        '3'
    } else if value == 4 {
        '4'
    } else if value == 5 {
        '5'
    } else if value == 6 {
        '6'
    } else if value == 7 {
        '7'
    } else if value == 8 {
        '8'
    } else {
        '9'
    }
}

/// The decimal digits of `value`, most significant first, without leading zeros.
pub open spec fn digits(value: nat) -> Seq<char>
    decreases value,
{
    if value < 10 {
        seq![digit(value as int)]
    } else {
        digits(value / 10).push(digit((value % 10) as int))
    }
}

/// `value` in decimal, with a minus sign where it is negative.
pub open spec fn decimal(value: int) -> Seq<char> {
    if value < 0 {
        seq!['-'] + digits((-value) as nat)
    } else {
        digits(value as nat)
    }
}

fn digit_text(value: u32) -> (text: &'static str)
    requires
        value < 10,
    ensures
        text@ == seq![digit(value as int)],
{
    proof {
        reveal_strlit("0");
        reveal_strlit("1");
        reveal_strlit("2");
        reveal_strlit("3");
        reveal_strlit("4");
        reveal_strlit("5");
        reveal_strlit("6");
        reveal_strlit("7");
        reveal_strlit("8");
        reveal_strlit("9");
    }
    let text = if value == 0 {
        "0"
    } else if value == 1 {
        "1"
    } else if value == 2 {
        "2"
    } else if value == 3 {
        "3"
    } else if value == 4 {
        "4"
    } else if value == 5 {
        "5"
    } else if value == 6 {
        "6"
    } else if value == 7 {
        "7"
    } else if value == 8 {
        "8"
    } else {
        "9"
    };
    assert(text@ =~= seq![digit(value as int)]);
    text
}

fn append_digits(text: &mut String, value: u32)
    ensures
        final(text)@ == old(text)@ + digits(value as nat),
    decreases value,
{
    if value >= 10 {
        append_digits(text, value / 10);
    }
    text.append(digit_text(value % 10));
    assert(final(text)@ =~= old(text)@ + digits(value as nat));
}

impl Describe for i32 {
    open spec fn text(&self) -> Seq<char> {
        decimal(*self as int)
    }

    fn describe(&self) -> (text: String) {
        let mut text = String::new();
        if *self < 0 {
            proof {
                reveal_strlit("-");
            }
            text.append("-");
            let magnitude: i64 = -(*self as i64);
            append_digits(&mut text, magnitude as u32);
        } else {
            append_digits(&mut text, *self as u32);
        }
        assert(text@ =~= decimal(*self as int));
        text
    }
}

} // verus!
