//! The failures that a request can end in, with the code and the message
//! under which each goes out.

use crate::text::{signed_decimal, signed_decimal_text};
use vstd::prelude::*;
use vstd::string::*;

verus! {

/// Why a request failed.
#[derive(Debug)]
pub enum Error {
    /// A call to the chain node failed.
    JsonRpcRequestError,
    /// The client sent malformed hex.
    Encoding(&'static str),
    /// The request names a cell that cannot be run.
    InvalidRequest(&'static str),
    /// The guest exited with a code other than zero.
    Script(i8),
    /// The machine trapped.
    Vm(String),
}

/// What an `Error` says.
pub enum ErrorView {
    JsonRpcRequestError,
    Encoding(Seq<char>),
    InvalidRequest(Seq<char>),
    Script(i8),
    Vm(Seq<char>),
}

impl View for Error {
    type V = ErrorView;

    open spec fn view(&self) -> ErrorView {
        match self {
            Error::JsonRpcRequestError => ErrorView::JsonRpcRequestError,
            Error::Encoding(message) => ErrorView::Encoding(message@),
            Error::InvalidRequest(message) => ErrorView::InvalidRequest(message@),
            Error::Script(code) => ErrorView::Script(*code),
            Error::Vm(message) => ErrorView::Vm(message@),
        }
    }
}

impl Error {
    /// The JSON-RPC error code of this failure.
    pub open spec fn spec_code(&self) -> i32 {
        match self {
            Error::JsonRpcRequestError => 1000,
            Error::Encoding(_) => 1001,
            Error::InvalidRequest(_) => 1002,
            Error::Script(_) => 1003,
            Error::Vm(_) => 1004,
        }
    }

    /// The message that goes out with the code.
    pub open spec fn spec_message(&self) -> Seq<char> {
        match self {
            Error::JsonRpcRequestError => Seq::empty(),
            Error::Encoding(message) => message@,
            Error::InvalidRequest(message) => message@,
            Error::Script(code) => "Script returns "@ + signed_decimal(*code as int),
            Error::Vm(message) => message@,
        }
    }

    /// The line that describes this failure to a reader.
    pub open spec fn spec_description(&self) -> Seq<char> {
        match self {
            Error::JsonRpcRequestError => "JsonRpcRequestError"@,
            Error::Encoding(message) => "Encoding error: "@ + message@,
            Error::InvalidRequest(message) => "Invalid request: "@ + message@,
            Error::Script(code) => "Script returns "@ + signed_decimal(*code as int),
            Error::Vm(message) => "VM error: "@ + message@,
        }
    }

    #[verifier::when_used_as_spec(spec_code)]
    pub fn code(&self) -> (code: i32)
        ensures
            code == self.spec_code(),
    {
        match self {
            Error::JsonRpcRequestError => 1000,
            Error::Encoding(_) => 1001,
            Error::InvalidRequest(_) => 1002,
            Error::Script(_) => 1003,
            Error::Vm(_) => 1004,
        }
    }

    pub fn message(&self) -> (message: String)
        ensures
            message@ == self.spec_message(),
    {
        match self {
            Error::JsonRpcRequestError => String::new(),
            Error::Encoding(message) => String::from_str(message),
            Error::InvalidRequest(message) => String::from_str(message),
            Error::Script(code) => {
                let mut text = String::from_str("Script returns ");
                let digits = signed_decimal_text(*code);
                text.append(digits.as_str());
                text
            },
            Error::Vm(message) => message.clone(),
        }
    }

    pub fn to_string(&self) -> (line: String)
        ensures
            line@ == self.spec_description(),
    {
        match self {
            Error::JsonRpcRequestError => String::from_str("JsonRpcRequestError"),
            Error::Encoding(message) => {
                let mut line = String::from_str("Encoding error: ");
                line.append(message);
                line
            },
            Error::InvalidRequest(message) => {
                let mut line = String::from_str("Invalid request: ");
                line.append(message);
                line
            },
            Error::Script(code) => {
                let mut line = String::from_str("Script returns ");
                let digits = signed_decimal_text(*code);
                line.append(digits.as_str());
                line
            },
            Error::Vm(message) => {
                let mut line = String::from_str("VM error: ");
                line.append(message.as_str());
                line
            },
        }
    }
}

} // verus!
