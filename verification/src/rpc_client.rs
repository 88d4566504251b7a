//! The envelope in which a call goes to the chain node, and what becomes of
//! the node's reply.

use crate::error::Error;
use crate::text::{decimal, decimal_text};
use vstd::prelude::*;
use vstd::string::*;

verus! {

/// The request for one call: the number of the request, the version of the
/// protocol, the name of the method and its parameters, which are JSON text
/// already.
pub open spec fn request_text(id: u64, method: Seq<char>, params: Seq<char>) -> Seq<char> {
    "{\"id\": "@ + decimal(id as nat) + ", \"jsonrpc\": \"2.0\", \"method\": \""@ + method
        + "\", \"params\": "@ + params + "}"@
}

/// Writes the request for one call.
pub fn request_body(id: u64, method: &str, params: &str) -> (body: String)
    ensures
        body@ == request_text(id, method@, params@),
{
    let mut body = String::from_str("{\"id\": ");
    let number = decimal_text(id);
    body.append(number.as_str());
    body.append(", \"jsonrpc\": \"2.0\", \"method\": \"");
    body.append(method);
    body.append("\", \"params\": ");
    body.append(params);
    body.append("}");
    body
}

/// What came back for one call.
#[derive(Debug)]
pub enum Reply<T> {
    /// The request did not get through.
    Unsent,
    /// What came back is no JSON-RPC response.
    Unread,
    /// The node answered with an error.
    Failure,
    /// The node answered with a result that is not of the kind asked for.
    Malformed,
    /// The node answered with this result.
    Success(T),
}

/// The result of a call. Whatever goes wrong on the way, the caller learns
/// only that the call failed.
pub fn settle<T>(reply: Reply<T>) -> (r: Result<T, Error>)
    ensures
        match reply {
            Reply::Success(result) => r == Ok::<T, Error>(result),
            _ => r == Err::<T, Error>(Error::JsonRpcRequestError),
        },
{
    match reply {
        Reply::Success(result) => Ok(result),
        _ => Err(Error::JsonRpcRequestError),
    }
}

} // verus!
