//! The response envelope: how the boundary reports the outcome of an
//! operation, apart from the data that it carries.

use crate::model::text_view;
use crate::repository::RepoError;
use vstd::prelude::*;

verus! {

/// The operations of the repository.
#[derive(Clone, Copy, Debug, PartialEq, Eq, Structural)]
pub enum Operation {
    List,
    Create,
    Get,
    Update,
    Delete,
}

/// The status code, the success flag and the message of a response.
#[derive(Clone, Debug, PartialEq, Eq)]
pub struct Envelope {
    pub code: u16,
    pub status: bool,
    pub message: Option<String>,
}

/// What an [`Envelope`] stands for.
pub struct EnvelopeView {
    pub code: int,
    pub status: bool,
    pub message: Option<Seq<char>>,
}

impl View for Envelope {
    type V = EnvelopeView;

    open spec fn view(&self) -> EnvelopeView {
        EnvelopeView {
            code: self.code as int,
            status: self.status,
            message: text_view(self.message),
        }
    }
}

/// The message that reports the success of `operation`, if it has one.
pub open spec fn success_message(operation: Operation) -> Option<Seq<char>> {
    match operation {
        Operation::List => Some("found orders"@),
        Operation::Create => Some("added successfully"@),
        Operation::Get => Some("found order"@),
        Operation::Update => None,
        Operation::Delete => None,
    }
}

/// The message that reports that `operation` failed with `error`.
pub open spec fn failure_message(operation: Operation, error: RepoError) -> Seq<char> {
    if error == RepoError::NotFound {
        "order not found"@
    } else {
        match operation {
            Operation::List => "Error retrieving orders"@,
            Operation::Create => "Error adding order"@,
            Operation::Get => "Error retrieving order"@,
            Operation::Update => "Error updating order"@,
            Operation::Delete => "Error deleting order"@,
        }
    }
}

/// The status code that reports `error`.
pub open spec fn failure_code(error: RepoError) -> int {
    if error == RepoError::NotFound {
        404
    } else {
        500
    }
}

/// The envelope for `operation` with the given failure, or with none.
pub open spec fn envelope_of(operation: Operation, failure: Option<RepoError>) -> EnvelopeView {
    match failure {
        None => EnvelopeView { code: 200, status: true, message: success_message(operation) },
        Some(error) => EnvelopeView {
            code: failure_code(error),
            status: false,
            message: Some(failure_message(operation, error)),
        },
    }
}

/// The envelope that reports the success of `operation`: status code 200, the
/// flag set, and the operation's message where it has one.
pub fn accepted(operation: Operation) -> (envelope: Envelope)
    ensures
        envelope@ == envelope_of(operation, None),
{
    let message: Option<String> = match operation {
        Operation::List => Some("found orders".to_owned()),
        Operation::Create => Some("added successfully".to_owned()),
        Operation::Get => Some("found order".to_owned()),
        Operation::Update => None,
        Operation::Delete => None,
    };
    Envelope { code: 200, status: true, message }
}

/// The envelope that reports that `operation` failed with `error`: status
/// code 404 for an order that was not found and 500 for any other failure,
/// the flag cleared, and a message that names the operation.
pub fn rejected(operation: Operation, error: RepoError) -> (envelope: Envelope)
    ensures
        envelope@ == envelope_of(operation, Some(error)),
{
    match error {
        RepoError::NotFound => Envelope {
            code: 404,
            status: false,
            message: Some("order not found".to_owned()),
        },
        _ => {
            let message: String = match operation {
                Operation::List => "Error retrieving orders".to_owned(),
                Operation::Create => "Error adding order".to_owned(),
                Operation::Get => "Error retrieving order".to_owned(),
                Operation::Update => "Error updating order".to_owned(),
                Operation::Delete => "Error deleting order".to_owned(),
            };
            Envelope { code: 500, status: false, message: Some(message) }
        },
    }
}

/// The envelope for the outcome of `operation`.
pub fn envelope<T>(operation: Operation, outcome: &Result<T, RepoError>) -> (envelope: Envelope)
    ensures
        envelope@ == envelope_of(
            operation,
            match *outcome {
                Ok(_) => None,
                Err(error) => Some(error),
            },
        ),
{
    match outcome {
        Ok(_) => accepted(operation),
        Err(error) => rejected(operation, *error),
    }
}

} // verus!
