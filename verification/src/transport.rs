//! How a request to the license server ended, and what that means to the
//! lifecycle: an answer, or none.
//!
//! An answer is what the server said in a response with a success status that
//! could be read. Everything else (no response was had in time, the status was
//! another, the body could not be read) is no answer.

use crate::lifecycle::{ActivationReply, ActivationResponse, ValidationReply, ValidationResponse};
use crate::text::decimal_string;
use crate::text::decimal_text;
use vstd::prelude::*;

verus! {

/// A response of the server: its status, its body as text, and what the body
/// was read as, where it could be read.
#[derive(Debug)]
pub struct HttpAnswer<R> {
    pub status: u16,
    pub body: String,
    pub parsed: Option<R>,
}

/// How a request ended: without a response, for the reason given, or with one.
#[derive(Debug)]
pub enum Exchange<R> {
    NoResponse(String),
    Response(HttpAnswer<R>),
}

/// Whether a status is one of success: 200 to 299.
pub open spec fn is_success(status: u16) -> bool {
    200 <= status < 300
}

/// Whether a status is one of success.
pub fn is_success_status(status: u16) -> (success: bool)
    ensures
        success == is_success(status),
{
    200 <= status && status < 300
}

/// What an exchange comes to: the server's answer, or the reason why there is
/// none. A status other than success gives `refused` followed by the body, a
/// body that could not be read gives `unreadable`.
pub open spec fn outcome_of<R>(
    exchange: Exchange<R>,
    refused: Seq<char>,
    unreadable: Seq<char>,
) -> Result<R, Seq<char>> {
    match exchange {
        Exchange::NoResponse(_) => Err("Failed to contact license server"@),
        Exchange::Response(answer) => if !is_success(answer.status) {
            Err(refused + answer.body@)
        } else {
            match answer.parsed {
                Some(r) => Ok(r),
                None => Err(unreadable),
            }
        },
    }
}

fn outcome<R>(exchange: Exchange<R>, refused: &str, unreadable: &str) -> (result: Result<
    R,
    String,
>)
    ensures
        match result {
            Ok(r) => outcome_of(exchange, refused@, unreadable@) == Ok::<R, Seq<char>>(r),
            Err(m) => outcome_of(exchange, refused@, unreadable@) == Err::<R, Seq<char>>(m@),
        },
{
    match exchange {
        Exchange::NoResponse(_) => Err(String::from_str("Failed to contact license server")),
        Exchange::Response(answer) => {
            if !is_success_status(answer.status) {
                let mut message = String::from_str(refused);
                message.append(answer.body.as_str());
                Err(message)
            } else {
                match answer.parsed {
                    Some(r) => Ok(r),
                    None => Err(String::from_str(unreadable)),
                }
            }
        },
    }
}

/// What the exchange of an activation request comes to.
pub fn activation_reply(exchange: Exchange<ActivationResponse>) -> (reply: ActivationReply)
    ensures
        match reply {
            ActivationReply::Answered(r) => outcome_of(
                exchange,
                "Activation failed: "@,
                "Failed to parse activation response"@,
            ) == Ok::<ActivationResponse, Seq<char>>(r),
            ActivationReply::Failed(m) => outcome_of(
                exchange,
                "Activation failed: "@,
                "Failed to parse activation response"@,
            ) == Err::<ActivationResponse, Seq<char>>(m@),
        },
{
    match outcome(exchange, "Activation failed: ", "Failed to parse activation response") {
        Ok(r) => ActivationReply::Answered(r),
        Err(m) => ActivationReply::Failed(m),
    }
}

/// What the exchange of a validation request comes to.
pub fn validation_reply(exchange: Exchange<ValidationResponse>) -> (reply: ValidationReply)
    ensures
        match reply {
            ValidationReply::Answered(r) => outcome_of(
                exchange,
                "Validation failed: "@,
                "Failed to parse validation response"@,
            ) == Ok::<ValidationResponse, Seq<char>>(r),
            ValidationReply::Failed(m) => outcome_of(
                exchange,
                "Validation failed: "@,
                "Failed to parse validation response"@,
            ) == Err::<ValidationResponse, Seq<char>>(m@),
        },
{
    match outcome(exchange, "Validation failed: ", "Failed to parse validation response") {
        Ok(r) => ValidationReply::Answered(r),
        Err(m) => ValidationReply::Failed(m),
    }
}

/// What became of the request to deactivate on the server. It is noted and
/// nothing else: local deactivation goes on whatever it says.
#[derive(Clone, Copy, Debug, PartialEq, Eq, Structural)]
pub enum DeactivationNote {
    /// No token was stored, so the server was not asked.
    NotAsked,
    /// The server confirmed.
    Confirmed,
    /// The server answered with this status.
    Refused(u16),
    /// No response was had.
    Unreachable,
}

/// The note on a deactivation request: `None` stands for a request that was
/// never sent.
pub open spec fn deactivation_note_of<R>(exchange: Option<Exchange<R>>) -> DeactivationNote {
    match exchange {
        None => DeactivationNote::NotAsked,
        Some(Exchange::NoResponse(_)) => DeactivationNote::Unreachable,
        Some(Exchange::Response(answer)) => if is_success(answer.status) {
            DeactivationNote::Confirmed
        } else {
            DeactivationNote::Refused(answer.status)
        },
    }
}

/// Notes what became of the request to deactivate on the server.
pub fn deactivation_note<R>(exchange: &Option<Exchange<R>>) -> (note: DeactivationNote)
    ensures
        note == deactivation_note_of(*exchange),
{
    match exchange {
        None => DeactivationNote::NotAsked,
        Some(Exchange::NoResponse(_)) => DeactivationNote::Unreachable,
        Some(Exchange::Response(answer)) => {
            if is_success_status(answer.status) {
                DeactivationNote::Confirmed
            } else {
                DeactivationNote::Refused(answer.status)
            }
        },
    }
}

/// The words of a note.
pub open spec fn note_text(note: DeactivationNote) -> Seq<char> {
    match note {
        DeactivationNote::NotAsked => "No activation token stored, server not contacted"@,
        DeactivationNote::Confirmed => "License deactivated on server"@,
        DeactivationNote::Refused(status) => "Server deactivation failed: "@ + decimal_text(
            status as nat,
        ),
        DeactivationNote::Unreachable => "Failed to contact server for deactivation"@,
    }
}

impl DeactivationNote {
    /// Whether the note is a warning: the server was asked and did not confirm.
    pub fn is_warning(&self) -> (warning: bool)
        ensures
            warning == (*self is Refused || *self is Unreachable),
    {
        match self {
            DeactivationNote::Refused(_) => true,
            DeactivationNote::Unreachable => true,
            _ => false,
        }
    }

    /// The note in words.
    pub fn message(&self) -> (text: String)
        ensures
            text@ == note_text(*self),
    {
        match self {
            DeactivationNote::NotAsked => String::from_str(
                "No activation token stored, server not contacted",
            ),
            DeactivationNote::Confirmed => String::from_str("License deactivated on server"),
            DeactivationNote::Refused(status) => {
                let mut text = String::from_str("Server deactivation failed: ");
                let code = decimal_string(*status as usize);
                text.append(code.as_str());
                text
            },
            DeactivationNote::Unreachable => String::from_str(
                "Failed to contact server for deactivation",
            ),
        }
    }
}

} // verus!
