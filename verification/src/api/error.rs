//! The errors of the API.
use vstd::prelude::*;
use crate::text::{u64_to_string, usize_to_string, decimal};

verus! {

broadcast use vstd::string::group_string_axioms;

/// A failure of the HTTP client.
#[derive(Debug)]
pub enum UreqFailure {
    /// The server answered with an error status; the text describes the failure.
    Status(u16, String),
    /// No answer could be had; the text describes the failure.
    Transport(String),
}

/// An error of the API.
#[derive(Debug)]
pub enum Error {
    Ureq(UreqFailure),
    Status(u16),
    NoContent,
    /// Holds the length of the list.
    OutOfBound(usize),
    Io(String),
    Serde(String),
}

impl Clone for UreqFailure {
    fn clone(&self) -> (r: Self)
        ensures
            r == *self,
    {
        match self {
            UreqFailure::Status(code, text) => UreqFailure::Status(*code, text.clone()),
            UreqFailure::Transport(text) => UreqFailure::Transport(text.clone()),
        }
    }
}

impl Clone for Error {
    fn clone(&self) -> (r: Self)
        ensures
            r == *self,
    {
        match self {
            Error::Ureq(f) => Error::Ureq(f.clone()),
            Error::Status(s) => Error::Status(*s),
            Error::NoContent => Error::NoContent,
            Error::OutOfBound(n) => Error::OutOfBound(*n),
            Error::Io(e) => Error::Io(e.clone()),
            Error::Serde(e) => Error::Serde(e.clone()),
        }
    }
}

/// The text of a failure of the HTTP client.
pub open spec fn ureq_text(f: UreqFailure) -> Seq<char> {
    match f {
        UreqFailure::Status(_, t) => t@,
        UreqFailure::Transport(t) => t@,
    }
}

/// The text that tells the user of an error.
pub open spec fn error_text(e: Error) -> Seq<char> {
    match e {
        Error::Ureq(f) => "Connection error: "@ + ureq_text(f),
        Error::Status(s) => "Connection error: ERROR "@ + decimal(s as nat),
        Error::Io(t) => "Connection error: "@ + t@,
        Error::NoContent => "No content"@,
        Error::OutOfBound(n) => "Out of bound access, the array is of len "@ + decimal(n as nat),
        Error::Serde(t) => "Deserialisation error: "@ + t@,
    }
}

impl Error {
    /// The text that tells the user of the error.
    pub fn message(&self) -> (r: String)
        ensures
            r@ == error_text(*self),
    {
        match self {
            Error::Ureq(f) => {
                let mut m = String::from_str("Connection error: ");
                match f {
                    UreqFailure::Status(_, t) => m.append(t.as_str()),
                    UreqFailure::Transport(t) => m.append(t.as_str()),
                }
                m
            },
            Error::Status(s) => {
                let mut m = String::from_str("Connection error: ERROR ");
                let n = u64_to_string(*s as u64);
                m.append(n.as_str());
                m
            },
            Error::Io(t) => {
                let mut m = String::from_str("Connection error: ");
                m.append(t.as_str());
                m
            },
            Error::NoContent => String::from_str("No content"),
            Error::OutOfBound(n) => {
                let mut m = String::from_str("Out of bound access, the array is of len ");
                let d = usize_to_string(*n);
                m.append(d.as_str());
                m
            },
            Error::Serde(t) => {
                let mut m = String::from_str("Deserialisation error: ");
                m.append(t.as_str());
                m
            },
        }
    }
}

/// The answer, unless its status is an error (400 or more).
pub fn status_or_error(status: u16) -> (r: Result<u16, Error>)
    ensures
        status < 400 ==> r == Ok::<u16, Error>(status),
        status >= 400 ==> r == Err::<u16, Error>(Error::Status(status)),
{
    if status >= 400 {
        Err(Error::Status(status))
    } else {
        Ok(status)
    }
}

} // verus!
