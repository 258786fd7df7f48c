//! Routing failures and the text they are reported with.
use vstd::prelude::*;

use crate::text::{decimal, i64_text, signed_decimal, u64_text};

verus! {

/// Why a message that looked like a command could not be handed to a handler.
#[derive(Debug, Clone, PartialEq, Eq)]
pub enum DispatchError {
    /// Fewer arguments than the command's declared minimum.
    NotEnoughArguments { min: u64, given: u64 },
    /// More arguments than the command's declared maximum.
    TooManyArguments { max: u64, given: u64 },
    /// The command name belongs to no registered group.
    UnknownCommand,
    /// Any other routing failure, carried as its textual description.
    Other { description: String },
}

/// The debug-style description of a routing failure, as written to the operator log.
pub open spec fn description_of(e: DispatchError) -> Seq<char> {
    match e {
        DispatchError::NotEnoughArguments { min, given } => "NotEnoughArguments { min: "@ + decimal(
            min as nat,
        ) + ", given: "@ + decimal(given as nat) + " }"@,
        DispatchError::TooManyArguments { max, given } => "TooManyArguments { max: "@ + decimal(
            max as nat,
        ) + ", given: "@ + decimal(given as nat) + " }"@,
        DispatchError::UnknownCommand => "UnknownCommand"@,
        DispatchError::Other { description } => description@,
    }
}

/// The user-facing text sent back to the room for a routing failure.
pub open spec fn message_of(e: DispatchError) -> Seq<char> {
    match e {
        DispatchError::NotEnoughArguments { min, given } => "Not enough arguments; expected "@
            + decimal(min as nat) + ", got "@ + decimal(given as nat) + "."@,
        DispatchError::TooManyArguments { max, given } => "Too many arguments; expected "@
            + decimal(max as nat) + ", got "@ + decimal(given as nat) + "."@,
        _ => "unhandled dispatch error: "@ + description_of(e),
    }
}

/// The operator log line that accompanies an error raised for a room.
pub open spec fn room_log_line_of(room_id: int, error: Seq<char>) -> Seq<char> {
    "[room_id "@ + signed_decimal(room_id) + "]: "@ + error
}

/// Joins `head`, the decimal text of `a`, `middle`, the decimal text of `b` and `tail`.
fn two_numbers(head: &str, a: u64, middle: &str, b: u64, tail: &str) -> (r: String)
    ensures
        r@ == head@ + decimal(a as nat) + middle@ + decimal(b as nat) + tail@,
{
    let mut s = String::from_str(head);
    let a_text = u64_text(a);
    s.append(a_text.as_str());
    s.append(middle);
    let b_text = u64_text(b);
    s.append(b_text.as_str());
    s.append(tail);
    s
}

impl DispatchError {
    /// The debug-style description of this failure.
    pub fn description(&self) -> (r: String)
        ensures
            r@ == description_of(*self),
    {
        match self {
            DispatchError::NotEnoughArguments { min, given } => two_numbers(
                "NotEnoughArguments { min: ",
                *min,
                ", given: ",
                *given,
                " }",
            ),
            DispatchError::TooManyArguments { max, given } => two_numbers(
                "TooManyArguments { max: ",
                *max,
                ", given: ",
                *given,
                " }",
            ),
            DispatchError::UnknownCommand => String::from_str("UnknownCommand"),
            DispatchError::Other { description } => description.clone(),
        }
    }
}

/// The text sent back to the room for a routing failure.
pub fn translate(e: &DispatchError) -> (r: String)
    ensures
        r@ == message_of(*e),
{
    match e {
        DispatchError::NotEnoughArguments { min, given } => two_numbers(
            "Not enough arguments; expected ",
            *min,
            ", got ",
            *given,
            ".",
        ),
        DispatchError::TooManyArguments { max, given } => two_numbers(
            "Too many arguments; expected ",
            *max,
            ", got ",
            *given,
            ".",
        ),
        _ => {
            let mut s = String::from_str("unhandled dispatch error: ");
            let d = e.description();
            s.append(d.as_str());
            s
        },
    }
}

/// The operator log line for an error raised while serving room `room_id`.
pub fn room_log_line(room_id: i64, error: &str) -> (r: String)
    ensures
        r@ == room_log_line_of(room_id as int, error@),
{
    let mut s = String::from_str("[room_id ");
    let id_text = i64_text(room_id);
    s.append(id_text.as_str());
    s.append("]: ");
    s.append(error);
    s
}

} // verus!
