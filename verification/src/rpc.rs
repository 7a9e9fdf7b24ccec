//! The numeric codes of the protocol: what they are and how they are
//! read from and written to a message.

use vstd::prelude::*;
use crate::error::{RpcError, RpcErrorView};

pub mod v1;

verus! {

/// A set of named codes, each with its number.
///
/// `code` gives the number of a name and `decode` the name of a number;
/// the two are inverse to each other.
pub trait CodeConvert: Sized {
    /// The number that stands for the code.
    spec fn code(&self) -> u64;

    /// The code that a number stands for, if any.
    spec fn decode(n: u64) -> Option<Self>;

    /// Reading the number of a code gives the code back.
    proof fn lemma_code_decode(c: Self)
        ensures
            Self::decode(c.code()) == Some(c),
    ;

    /// A number that is read as a code is the number of that code.
    proof fn lemma_decode_code(n: u64)
        ensures
            Self::decode(n) is Some ==> Self::decode(n).unwrap().code() == n,
    ;

    /// Reads a number as a code; fails with `InvalidCode` exactly when the
    /// number names nothing.
    fn from_u64(n: u64) -> (r: Result<Self, RpcError>)
        ensures
            match r {
                Ok(c) => Self::decode(n) == Some(c),
                Err(e) => Self::decode(n) is None && e@ == RpcErrorView::InvalidCode,
            },
    ;

    /// The number of the code.
    fn to_u64(&self) -> (n: u64)
        ensures
            n == self.code(),
    ;

    /// The largest number that names a code.
    fn max_number() -> (n: u64)
        ensures
            Self::decode(n) is Some,
            forall|k: u64| #[trigger] Self::decode(k) is Some ==> k <= n,
    ;
}

/// The notices that a client sends without expecting an answer.
#[derive(Debug, PartialEq, Eq, Clone, Copy, Structural)]
pub enum Notice {
    /// No more requests will be made.
    Done,
}

impl CodeConvert for Notice {
    open spec fn code(&self) -> u64 {
        match self {
            Notice::Done => 1,
        }
    }

    open spec fn decode(n: u64) -> Option<Self> {
        if n == 1 {
            Some(Notice::Done)
        } else {
            None
        }
    }

    proof fn lemma_code_decode(c: Self) {
    }

    proof fn lemma_decode_code(n: u64) {
    }

    fn from_u64(n: u64) -> (r: Result<Self, RpcError>) {
        if n == 1 {
            Ok(Notice::Done)
        } else {
            Err(RpcError::InvalidCode)
        }
    }

    fn to_u64(&self) -> (n: u64) {
        match self {
            Notice::Done => 1,
        }
    }

    fn max_number() -> (n: u64) {
        1
    }
}

/// The methods that every state accepts.
#[derive(Debug, PartialEq, Eq, Clone, Copy, Structural)]
pub enum RequestMethod {
    /// Starts a session by asking for a protocol version; one argument, an unsigned integer.
    Version,
}

impl CodeConvert for RequestMethod {
    open spec fn code(&self) -> u64 {
        match self {
            RequestMethod::Version => 2,
        }
    }

    open spec fn decode(n: u64) -> Option<Self> {
        if n == 2 {
            Some(RequestMethod::Version)
        } else {
            None
        }
    }

    proof fn lemma_code_decode(c: Self) {
    }

    proof fn lemma_decode_code(n: u64) {
    }

    fn from_u64(n: u64) -> (r: Result<Self, RpcError>) {
        if n == 2 {
            Ok(RequestMethod::Version)
        } else {
            Err(RpcError::InvalidCode)
        }
    }

    fn to_u64(&self) -> (n: u64) {
        match self {
            RequestMethod::Version => 2,
        }
    }

    fn max_number() -> (n: u64) {
        2
    }
}

/// The error codes of the answers to a `RequestMethod`.
#[derive(Debug, PartialEq, Eq, Clone, Copy, Structural)]
pub enum RequestError {
    /// The server does not speak the protocol version asked for.
    VersionUnsupported,
}

impl CodeConvert for RequestError {
    open spec fn code(&self) -> u64 {
        match self {
            RequestError::VersionUnsupported => 3,
        }
    }

    open spec fn decode(n: u64) -> Option<Self> {
        if n == 3 {
            Some(RequestError::VersionUnsupported)
        } else {
            None
        }
    }

    proof fn lemma_code_decode(c: Self) {
    }

    proof fn lemma_decode_code(n: u64) {
    }

    fn from_u64(n: u64) -> (r: Result<Self, RpcError>) {
        if n == 3 {
            Ok(RequestError::VersionUnsupported)
        } else {
            Err(RpcError::InvalidCode)
        }
    }

    fn to_u64(&self) -> (n: u64) {
        match self {
            RequestError::VersionUnsupported => 3,
        }
    }

    fn max_number() -> (n: u64) {
        3
    }
}

} // verus!
