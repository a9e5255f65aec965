//! The text of a platform failure: which operation failed, and with which status.

use vstd::prelude::*;
use vstd::string::StringExecFns;
use crate::error::Error;
use crate::platform::GattCommunicationStatus;

verus! {

/// The operations of the client that end with a status of the stack.
#[derive(Clone, Copy, Debug, PartialEq, Eq, Structural)]
pub enum Operation {
    Write,
    Read,
    Subscribe,
    Unsubscribe,
}

/// The character of one decimal digit.
pub open spec fn digit_char(digit: int) -> char {
    if digit == 0 {
        '0'
    } else if digit == 1 {
        '1'
    } else if digit == 2 {
        '2'
    } else if digit == 3 {
        '3'
    } else if digit == 4 {
        '4'
    } else if digit == 5 {
        '5'
    } else if digit == 6 {
        '6'
    } else if digit == 7 {
        '7'
    } else if digit == 8 {
        '8'
    } else {
        '9'
    }
}

/// The decimal digits of a natural number, most significant first, without leading zeros.
pub open spec fn decimal_digits(n: nat) -> Seq<char>
    decreases n,
{
    if n < 10 {
        seq![digit_char(n as int)]
    } else {
        decimal_digits(n / 10).push(digit_char((n % 10) as int))
    }
}

/// An integer in decimal, with a minus sign in front if it is negative.
pub open spec fn decimal_text(n: int) -> Seq<char> {
    if n < 0 {
        seq!['-'] + decimal_digits((-n) as nat)
    } else {
        decimal_digits(n as nat)
    }
}

/// The word for an operation in the text of a failure.
pub open spec fn operation_text(operation: Operation) -> Seq<char> {
    match operation {
        Operation::Write => "write"@,
        Operation::Read => "read"@,
        Operation::Subscribe => "subscribe"@,
        Operation::Unsubscribe => "unsubscribe"@,
    }
}

/// The text of the failure of `operation` with `status`: for a write that
/// ended with code 1, `Windows UWP threw error on write: GattCommunicationStatus(1)`.
pub open spec fn failure_text(operation: Operation, status: GattCommunicationStatus) -> Seq<char> {
    "Windows UWP threw error on "@ + operation_text(operation) + ": GattCommunicationStatus("@
        + decimal_text(status.code as int) + ")"@
}

/// The line recorded when the stack failed to remove the value-changed
/// handler: for a failure with the text `gone`,
/// `Failed to remove the value-changed handler: gone`.
pub open spec fn removal_text(error: Error) -> Seq<char> {
    "Failed to remove the value-changed handler: "@ + error@
}

fn digit_str(digit: u32) -> (text: &'static str)
    requires
        digit < 10,
    ensures
        text@ == seq![digit_char(digit as int)],
{
    proof {
        reveal_strlit("0");
        reveal_strlit("1");
        reveal_strlit("2");
        reveal_strlit("3");
        reveal_strlit("4");
        reveal_strlit("5");
        reveal_strlit("6");
        reveal_strlit("7");
        reveal_strlit("8");
        reveal_strlit("9");
    }
    let text = match digit {
        0 => "0",
        1 => "1",
        2 => "2",
        3 => "3",
        4 => "4",
        5 => "5",
        6 => "6",
        7 => "7",
        8 => "8",
        _ => "9",
    };
    assert(text@ =~= seq![digit_char(digit as int)]);
    text
}

fn append_digits(text: &mut String, n: u32)
    ensures
        final(text)@ == old(text)@ + decimal_digits(n as nat),
    decreases n,
{
    if n >= 10 {
        append_digits(text, n / 10);
    }
    text.append(digit_str(n % 10));
    assert(text@ =~= old(text)@ + decimal_digits(n as nat));
}

/// Writes an integer in decimal.
pub fn decimal(n: i32) -> (text: String)
    ensures
        text@ == decimal_text(n as int),
{
    let mut text = String::new();
    if n < 0 {
        proof {
            reveal_strlit("-");
        }
        text.append("-");
        let magnitude: u32 = (-(n as i64)) as u32;
        append_digits(&mut text, magnitude);
        assert(text@ =~= decimal_text(n as int));
    } else {
        append_digits(&mut text, n as u32);
        assert(text@ =~= decimal_text(n as int));
    }
    text
}

fn operation_word(operation: Operation) -> (word: &'static str)
    ensures
        word@ == operation_text(operation),
{
    match operation {
        Operation::Write => "write",
        Operation::Read => "read",
        Operation::Subscribe => "subscribe",
        Operation::Unsubscribe => "unsubscribe",
    }
}

/// Writes the text of the failure of `operation` with `status`.
pub fn failure_message(operation: Operation, status: GattCommunicationStatus) -> (text: String)
    ensures
        text@ == failure_text(operation, status),
{
    let mut text = String::from_str("Windows UWP threw error on ");
    text.append(operation_word(operation));
    text.append(": GattCommunicationStatus(");
    let code = decimal(status.code);
    text.append(code.as_str());
    text.append(")");
    text
}

/// Turns the answer of the stack to the removal of the value-changed handler
/// into what is recorded for diagnostics: nothing if the handler was removed,
/// else one line with the failure's text. A failed removal is never the
/// failure of an operation, so this is all that becomes of it.
pub fn removal_report(reply: Result<(), Error>) -> (report: Option<String>)
    ensures
        reply is Ok ==> report is None,
        reply matches Err(error) ==> report matches Some(line) && line@ == removal_text(error),
{
    match reply {
        Ok(_) => None,
        Err(error) => {
            let mut line = String::from_str("Failed to remove the value-changed handler: ");
            let text = error.message();
            line.append(text.as_str());
            Some(line)
        },
    }
}

} // verus!
