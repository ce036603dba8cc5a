//! The faults that a call can end in.

use vstd::prelude::*;
use vstd::string::StringExecFns;
use crate::text::{decimal, decimal_text};

verus! {

/// Why a call gave no value.
#[derive(Clone, Debug, PartialEq, Eq)]
pub enum Error {
    /// The call did not get through: no answer came back.
    Transport(String),
    /// A payload could not be encoded, or an answer was not of the form
    /// that was asked for.
    Serialization(String),
    /// The provider refused the request and said why.
    Api { status: u16, id: String, message: String },
    /// The provider refused the request with an answer that does not say why
    /// in the provider's usual form: the status and the answer as it came.
    Status { status: u16, body: String },
}

/// What an `Error` holds.
pub enum ErrorView {
    Transport(Seq<char>),
    Serialization(Seq<char>),
    Api { status: u16, id: Seq<char>, message: Seq<char> },
    Status { status: u16, body: Seq<char> },
}

impl View for Error {
    type V = ErrorView;

    open spec fn view(&self) -> ErrorView {
        match *self {
            Error::Transport(m) => ErrorView::Transport(m@),
            Error::Serialization(m) => ErrorView::Serialization(m@),
            Error::Api { status, id, message } => ErrorView::Api {
                status,
                id: id@,
                message: message@,
            },
            Error::Status { status, body } => ErrorView::Status { status, body: body@ },
        }
    }
}

impl ErrorView {
    /// The fault in words.
    pub open spec fn described(self) -> Seq<char> {
        match self {
            ErrorView::Transport(m) => "transport fault: "@ + m,
            ErrorView::Serialization(m) => "serialization fault: "@ + m,
            ErrorView::Api { status, id, message } => "API fault "@ + decimal(status as nat)
                + " ("@ + id + "): "@ + message,
            ErrorView::Status { status, body } => "API fault "@ + decimal(status as nat) + ": "@
                + body,
        }
    }
}

impl Error {
    /// The fault in words.
    pub fn describe(&self) -> (r: String)
        ensures
            r@ == self@.described(),
    {
        match self {
            Error::Transport(m) => String::from_str("transport fault: ").concat(m.as_str()),
            Error::Serialization(m) => String::from_str("serialization fault: ").concat(
                m.as_str(),
            ),
            Error::Api { status, id, message } => {
                let n: usize = *status as usize;
                String::from_str("API fault ").concat(decimal_text(n).as_str()).concat(" (").concat(
                    id.as_str(),
                ).concat("): ").concat(message.as_str())
            },
            Error::Status { status, body } => {
                let n: usize = *status as usize;
                String::from_str("API fault ").concat(decimal_text(n).as_str()).concat(": ").concat(
                    body.as_str(),
                )
            },
        }
    }
}

} // verus!
