//! The structured error body that the remote API returns beside a failing
//! status code.

use vstd::prelude::*;

verus! {

/// A server-side error decoded from a response body.
#[derive(Debug, Clone)]
pub struct Error {
    /// The error code reported by the server, when present.
    pub code: Option<i64>,
    /// The human-readable message reported by the server, when present.
    pub message: Option<String>,
}

impl Error {
    /// Build a server error value from its parts.
    pub fn new(code: Option<i64>, message: Option<String>) -> (r: Error)
        ensures
            r.code == code,
            r.message == message,
    {
        Error { code, message }
    }

    /// The server's message, or a fixed fallback when the body carried none.
    pub fn text(&self) -> (r: String)
        ensures
            match self.message {
                Some(m) => r@ == m@,
                None => r@ == "unknown server error"@,
            },
    {
        match &self.message {
            Some(m) => m.clone(),
            None => {
                let mut s = String::new();
                s.append("unknown server error");
                s
            },
        }
    }
}

} // verus!
