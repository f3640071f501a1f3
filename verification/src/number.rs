//! The prompt that asks for a number.

use crate::error::InputError;
use vstd::prelude::*;
use vstd::std_specs::iter::IteratorSpec;

verus! {

/// Whether `c` is one of the ten ASCII decimal digits.
pub open spec fn is_digit(c: char) -> bool {
    '0' <= c && c <= '9'
}

/// Whether every character of `text` is a decimal digit: no sign, no blank,
/// no separator.
pub open spec fn all_digits(text: Seq<char>) -> bool {
    forall|i: int| 0 <= i < text.len() ==> is_digit(#[trigger] text[i])
}

/// The number that the digit `c` stands for.
pub open spec fn digit_value(c: char) -> nat {
    (c as int - '0' as int) as nat
}

/// The number that `digits` denotes in base ten, most significant digit first.
pub open spec fn decimal_value(digits: Seq<char>) -> nat
    decreases digits.len(),
{
    if digits.len() == 0 {
        0
    } else {
        decimal_value(digits.drop_last()) * 10 + digit_value(digits.last())
    }
}

/// The digit that stands for `d`, for `d` below ten.
pub open spec fn digit_of(d: nat) -> char {
    ('0' as nat + d) as char
}

/// The digits of `n` in base ten, most significant digit first, without
/// leading zeros: "0" for zero.
pub open spec fn decimal_digits(n: nat) -> Seq<char>
    decreases n,
{
    if n < 10 {
        seq![digit_of(n)]
    } else {
        decimal_digits(n / 10).push(digit_of(n % 10))
    }
}

/// What a numeric prompt with the given default makes of a submitted line.
pub open spec fn numeric_response(default: u32, line: Seq<char>) -> Result<u32, InputError> {
    if line.len() == 0 {
        Ok(default)
    } else if !all_digits(line) {
        Err(InputError::InvalidFormat)
    } else if decimal_value(line) > u32::MAX {
        Err(InputError::Overflow)
    } else {
        Ok(decimal_value(line) as u32)
    }
}

/// A line of nothing but digits is accepted with the number that it denotes,
/// as far as that number fits; a line with anything but a digit in it is
/// turned down.
pub proof fn lemma_digits_accepted_others_rejected(default: u32, line: Seq<char>)
    ensures
        line.len() > 0 && all_digits(line) && decimal_value(line) <= u32::MAX ==> numeric_response(
            default,
            line,
        ) == Ok::<u32, InputError>(decimal_value(line) as u32),
        !all_digits(line) ==> numeric_response(default, line) == Err::<u32, InputError>(
            InputError::InvalidFormat,
        ),
{
}

/// Written out and read again, a number is what it was: its digits are
/// digits, there is at least one, and they denote the number.
pub proof fn lemma_decimal_round_trip(n: nat)
    ensures
        decimal_digits(n).len() > 0,
        all_digits(decimal_digits(n)),
        decimal_value(decimal_digits(n)) == n,
    decreases n,
{
    if n < 10 {
        let one = seq![digit_of(n)];
        assert(one.drop_last() == Seq::<char>::empty());
        assert(decimal_value(one.drop_last()) == 0);
        assert(one.last() == digit_of(n));
    } else {
        lemma_decimal_round_trip(n / 10);
        let front = decimal_digits(n / 10);
        let whole = front.push(digit_of(n % 10));
        assert(whole.drop_last() == front);
        assert(whole.last() == digit_of(n % 10));
        assert forall|i: int| 0 <= i < whole.len() implies is_digit(#[trigger] whole[i]) by {
            if i < front.len() {
                assert(whole[i] == front[i]);
            }
        }
    }
}

/// The default as it is shown is a line that gives the default back: the
/// text of a number passes as a line, whatever the prompt's own default, and
/// is taken for that number.
pub proof fn lemma_shown_number_is_accepted(default: u32, n: u32)
    ensures
        numeric_response(default, decimal_digits(n as nat)) == Ok::<u32, InputError>(n),
{
    lemma_decimal_round_trip(n as nat);
}

/// Appends the digits of `n` to `text`.
fn push_decimal(text: &mut String, n: u32)
    ensures
        final(text)@ == old(text)@ + decimal_digits(n as nat),
    decreases n,
{
    if n >= 10 {
        push_decimal(text, n / 10);
    }
    let digit: u8 = (n % 10) as u8;
    text.push(('0' as u8 + digit) as char);
    proof {
        let d = (n % 10) as nat;
        assert(digit_of(d) == ('0' as u8 + digit) as char);
        if n < 10 {
            assert(old(text)@.push(digit_of(d)) == old(text)@ + decimal_digits(n as nat));
        } else {
            assert((old(text)@ + decimal_digits((n / 10) as nat)).push(digit_of(d)) == old(text)@
                + decimal_digits(n as nat));
        }
    }
}

/// A question whose answer is a number, with the number that an empty answer
/// stands for.
#[derive(Debug)]
pub struct NumericPrompt {
    /// The question put to the operator.
    pub prompt: String,
    /// The value of an empty answer.
    pub default: u32,
}

impl NumericPrompt {
    pub fn new(prompt: String, default: u32) -> (p: NumericPrompt)
        ensures
            p.prompt == prompt,
            p.default == default,
    {
        NumericPrompt { prompt, default }
    }

    /// The question for the number of passwords. An empty answer stands
    /// for one.
    pub fn for_count() -> (p: NumericPrompt)
        ensures
            p.prompt@ == "How many passwords do you want to generate?"@,
            p.default == 1,
    {
        NumericPrompt::new("How many passwords do you want to generate?".to_string(), 1)
    }

    /// The question for the length of each password. An empty answer stands
    /// for ten.
    pub fn for_length() -> (p: NumericPrompt)
        ensures
            p.prompt@ == "How long do you want your password(s) to be?"@,
            p.default == 10,
    {
        NumericPrompt::new("How long do you want your password(s) to be?".to_string(), 10)
    }

    /// The default as it is shown: its digits in base ten.
    pub fn default_text(&self) -> (text: String)
        ensures
            text@ == decimal_digits(self.default as nat),
    {
        let mut text = String::new();
        push_decimal(&mut text, self.default);
        assert(Seq::<char>::empty() + decimal_digits(self.default as nat) == decimal_digits(
            self.default as nat,
        ));
        text
    }

    /// What is said to the operator when a line is turned down.
    pub fn rejection() -> (message: &'static str)
        ensures
            message@ == "Please enter a number!"@,
    {
        "Please enter a number!"
    }

    /// Tests the form of a submitted line: it passes when it holds nothing
    /// but decimal digits. A line that fails is to be asked for again.
    pub fn validate(&self, line: &str) -> (r: Result<(), InputError>)
        ensures
            r is Ok <==> all_digits(line@),
            r is Ok <==> numeric_response(self.default, line@) != Err::<u32, InputError>(
                InputError::InvalidFormat,
            ),
            r is Err ==> r == Err::<(), InputError>(InputError::InvalidFormat),
    {
        for c in it: line.chars()
            invariant
                it.seq() == line@,
                all_digits(line@.take(it.index())),
        {
            if !(c >= '0' && c <= '9') {
                assert(!is_digit(line@[it.index()]));
                return Err(InputError::InvalidFormat);
            }
            assert(line@.take(it.index() + 1) == line@.take(it.index()).push(c));
        }
        assert(line@.take(line@.len() as int) == line@);
        Ok(())
    }

    /// Turns a submitted line into the number asked for. An empty line gives
    /// the default. A line with anything but decimal digits in it is turned
    /// down as `InvalidFormat`; a line of digits gives the number they denote,
    /// or `Overflow` where that number does not fit.
    pub fn respond(&self, line: &str) -> (r: Result<u32, InputError>)
        ensures
            r == numeric_response(self.default, line@),
    {
        if line.is_empty() {
            return Ok(self.default);
        }
        let mut value: u32 = 0;
        let mut overflow = false;
        for c in it: line.chars()
            invariant
                it.seq() == line@,
                all_digits(line@.take(it.index())),
                overflow <==> decimal_value(line@.take(it.index())) > u32::MAX,
                !overflow ==> value == decimal_value(line@.take(it.index())),
        {
            if !(c >= '0' && c <= '9') {
                assert(!is_digit(line@[it.index()]));
                return Err(InputError::InvalidFormat);
            }
            proof {
                let next = line@.take(it.index() + 1);
                assert(next.drop_last() == line@.take(it.index()));
                assert(next.last() == c);
                assert(next == line@.take(it.index()).push(c));
            }
            if !overflow {
                let digit: u32 = c as u32 - '0' as u32;
                match value.checked_mul(10) {
                    Some(tens) => match tens.checked_add(digit) {
                        Some(sum) => {
                            value = sum;
                        },
                        None => {
                            overflow = true;
                        },
                    },
                    None => {
                        overflow = true;
                    },
                }
            }
        }
        assert(line@.take(line@.len() as int) == line@);
        if overflow {
            Err(InputError::Overflow)
        } else {
            Ok(value)
        }
    }
}

} // verus!
