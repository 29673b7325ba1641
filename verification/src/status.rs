//! The status of a response: whether it counts as success, and the text that
//! a rejected status is reported with.

use crate::failure::{outcome_view, ClassifiedError, Failure, FailureKind};
use vstd::prelude::*;
use vstd::string::StringExecFns;

verus! {

/// The conventional successful range, 200 to 299.
pub open spec fn is_success_code(code: u16) -> bool {
    200 <= code < 300
}

/// The numbers that are HTTP status codes at all: three decimal digits.
pub open spec fn is_status_code(code: u16) -> bool {
    100 <= code <= 999
}

/// The character of one decimal digit.
pub open spec fn digit_char(digit: nat) -> char {
    if digit == 0 {
        '0'
    } else if digit == 1 {
        '1'
    } else if digit == 2 {
        '2'
    } else if digit == 3 {
        '3'
    } else if digit == 4 {
        '4'
    } else if digit == 5 {
        '5'
    } else if digit == 6 {
        '6'
    } else if digit == 7 {
        '7'
    } else if digit == 8 {
        '8'
    } else {
        '9'
    }
}

/// A number written in decimal, without sign or leading zeros.
pub open spec fn decimal_text(number: nat) -> Seq<char>
    decreases number,
{
    if number < 10 {
        seq![digit_char(number)]
    } else {
        decimal_text(number / 10).push(digit_char(number % 10))
    }
}

/// The reason phrase that `Display` for `reqwest::StatusCode` prints after
/// the number: the canonical reason of the code, or a fixed placeholder
/// where the code has none.
pub uninterp spec fn reason_phrase(code: u16) -> Seq<char>;

/// The text a status is reported with: the number and the reason phrase for
/// a status code, the bare number for any other value.
pub open spec fn status_text(code: u16) -> Seq<char> {
    if is_status_code(code) {
        decimal_text(code as nat) + seq![' '] + reason_phrase(code)
    } else {
        decimal_text(code as nat)
    }
}

/// The failure that a status outside the successful range is reported as.
pub open spec fn rejected_status(code: u16) -> Failure {
    Failure { kind: FailureKind::RemoteStatus, detail: status_text(code) }
}

/// What the validation of a status comes to.
pub open spec fn status_verdict(code: u16) -> Result<(), Failure> {
    if is_success_code(code) {
        Ok(())
    } else {
        Err(rejected_status(code))
    }
}

/// Calls `reqwest::StatusCode::from_u16` and renders the status by its
/// `Display` impl. `from_u16` accepts exactly the numbers from 100 to 999;
/// `Display` writes the number in decimal, one space, and the reason phrase.
#[verifier::external_body]
fn status_line(code: u16) -> (line: Option<String>)
    ensures
        line is Some <==> 100 <= code <= 999,
        line matches Some(text) ==> text@ == decimal_text(code as nat) + seq![' ']
            + reason_phrase(code),
{
    match reqwest::StatusCode::from_u16(code) {
        Ok(status) => Some(status.to_string()),
        Err(_) => None,
    }
}

fn digit_str(digit: u16) -> (text: &'static str)
    requires
        digit < 10,
    ensures
        text@ == seq![digit_char(digit as nat)],
{
    proof {
        reveal_strlit("0");
        reveal_strlit("1");
        reveal_strlit("2");
        reveal_strlit("3");
        reveal_strlit("4");
        reveal_strlit("5");
        reveal_strlit("6");
        reveal_strlit("7");
        reveal_strlit("8");
        reveal_strlit("9");
    }
    let text = if digit == 0 {
        "0"
    } else if digit == 1 {
        "1"
    } else if digit == 2 {
        "2"
    } else if digit == 3 {
        "3"
    } else if digit == 4 {
        "4"
    } else if digit == 5 {
        "5"
    } else if digit == 6 {
        "6"
    } else if digit == 7 {
        "7"
    } else if digit == 8 {
        "8"
    } else {
        "9"
    };
    assert(text@ =~= seq![digit_char(digit as nat)]);
    text
}

/// Writes a number in decimal.
pub fn decimal(number: u16) -> (text: String)
    ensures
        text@ == decimal_text(number as nat),
    decreases number,
{
    if number < 10 {
        String::from_str(digit_str(number))
    } else {
        let mut text = decimal(number / 10);
        text.append(digit_str(number % 10));
        assert(text@ =~= decimal_text(number as nat / 10).push(digit_char(number as nat % 10)));
        text
    }
}

/// Whether a status lies in the successful range.
pub fn is_success(code: u16) -> (success: bool)
    ensures
        success == is_success_code(code),
{
    200 <= code && code < 300
}

/// The text a status is reported with.
pub fn describe_status(code: u16) -> (text: String)
    ensures
        text@ == status_text(code),
{
    match status_line(code) {
        Some(text) => text,
        None => decimal(code),
    }
}

/// Validates the status of a response: a status in the successful range
/// passes, any other is a `RemoteStatus` failure that carries the status
/// text.
pub fn check_status(code: u16) -> (checked: Result<(), ClassifiedError>)
    ensures
        outcome_view(checked) == status_verdict(code),
{
    if is_success(code) {
        Ok(())
    } else {
        Err(ClassifiedError::new(FailureKind::RemoteStatus, describe_status(code)))
    }
}

/// A rejected status is reported with its number in front: the diagnostic
/// of the failure begins with the decimal digits of the status.
pub proof fn lemma_rejected_status_names_code(code: u16)
    ensures
        decimal_text(code as nat).is_prefix_of(rejected_status(code).detail),
        is_status_code(code) ==> decimal_text(code as nat) == seq![
            digit_char(code as nat / 100),
            digit_char(code as nat / 10 % 10),
            digit_char(code as nat % 10),
        ],
{
    let digits = decimal_text(code as nat);
    let detail = rejected_status(code).detail;
    assert(digits =~= detail.subrange(0, digits.len() as int));
    if is_status_code(code) {
        reveal_with_fuel(decimal_text, 3);
        let n = code as nat;
        assert(n / 10 / 10 == n / 100);
        assert(digits =~= seq![digit_char(n / 100), digit_char(n / 10 % 10), digit_char(n % 10)]);
    }
}

} // verus!
