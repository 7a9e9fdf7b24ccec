//! The codes of version 1 of the protocol.

use vstd::prelude::*;
use crate::error::RpcError;
use crate::rpc::CodeConvert;

verus! {

/// The methods of a session.
#[derive(Debug, PartialEq, Eq, Clone, Copy, Structural)]
pub enum SessionMethod {
    /// Asks to attach to the agent session. The answer lists the tokens that are handed out openly, then the absolute path of a temporary file that holds the auth token.
    Attach,
    /// Proves possession of the tokens: the arguments are the tokens, the auth token last.
    AuthAttach,
    /// Lists the keys; no arguments.
    KeyList,
    /// Creates a key; one argument, a map of attribute names to values.
    CreateKey,
    /// Deletes a key; one argument, a map of attribute names to values.
    DeleteKey,
}

impl CodeConvert for SessionMethod {
    open spec fn code(&self) -> u64 {
        match self {
            SessionMethod::Attach => 4,
            SessionMethod::AuthAttach => 5,
            SessionMethod::KeyList => 6,
            SessionMethod::CreateKey => 7,
            SessionMethod::DeleteKey => 8,
        }
    }

    open spec fn decode(n: u64) -> Option<Self> {
        if n == 4 {
            Some(SessionMethod::Attach)
        } else if n == 5 {
            Some(SessionMethod::AuthAttach)
        } else if n == 6 {
            Some(SessionMethod::KeyList)
        } else if n == 7 {
            Some(SessionMethod::CreateKey)
        } else if n == 8 {
            Some(SessionMethod::DeleteKey)
        } else {
            None
        }
    }

    proof fn lemma_code_decode(c: Self) {
    }

    proof fn lemma_decode_code(n: u64) {
    }

    fn from_u64(n: u64) -> (r: Result<Self, RpcError>) {
        if n == 4 {
            Ok(SessionMethod::Attach)
        } else if n == 5 {
            Ok(SessionMethod::AuthAttach)
        } else if n == 6 {
            Ok(SessionMethod::KeyList)
        } else if n == 7 {
            Ok(SessionMethod::CreateKey)
        } else if n == 8 {
            Ok(SessionMethod::DeleteKey)
        } else {
            Err(RpcError::InvalidCode)
        }
    }

    fn to_u64(&self) -> (n: u64) {
        match self {
            SessionMethod::Attach => 4,
            SessionMethod::AuthAttach => 5,
            SessionMethod::KeyList => 6,
            SessionMethod::CreateKey => 7,
            SessionMethod::DeleteKey => 8,
        }
    }

    fn max_number() -> (n: u64) {
        8
    }
}

/// The error codes of the answers to a `SessionMethod`.
#[derive(Debug, PartialEq, Eq, Clone, Copy, Structural)]
pub enum SessionError {
    /// No error.
    Nil,
    /// The attach attempt failed, for instance on a wrong token.
    InvalidAttach,
    /// The key exists already.
    KeyExists,
    /// There is no such key.
    KeyNotFound,
}

impl CodeConvert for SessionError {
    open spec fn code(&self) -> u64 {
        match self {
            SessionError::Nil => 0,
            SessionError::InvalidAttach => 9,
            SessionError::KeyExists => 10,
            SessionError::KeyNotFound => 11,
        }
    }

    open spec fn decode(n: u64) -> Option<Self> {
        if n == 0 {
            Some(SessionError::Nil)
        } else if n == 9 {
            Some(SessionError::InvalidAttach)
        } else if n == 10 {
            Some(SessionError::KeyExists)
        } else if n == 11 {
            Some(SessionError::KeyNotFound)
        } else {
            None
        }
    }

    proof fn lemma_code_decode(c: Self) {
    }

    proof fn lemma_decode_code(n: u64) {
    }

    fn from_u64(n: u64) -> (r: Result<Self, RpcError>) {
        if n == 0 {
            Ok(SessionError::Nil)
        } else if n == 9 {
            Ok(SessionError::InvalidAttach)
        } else if n == 10 {
            Ok(SessionError::KeyExists)
        } else if n == 11 {
            Ok(SessionError::KeyNotFound)
        } else {
            Err(RpcError::InvalidCode)
        }
    }

    fn to_u64(&self) -> (n: u64) {
        match self {
            SessionError::Nil => 0,
            SessionError::InvalidAttach => 9,
            SessionError::KeyExists => 10,
            SessionError::KeyNotFound => 11,
        }
    }

    fn max_number() -> (n: u64) {
        11
    }
}

/// The methods of a protocol tunnel.
#[derive(Debug, PartialEq, Eq, Clone, Copy, Structural)]
pub enum ProtocolMethod {
    /// Starts a protocol; one argument, a map that names the protocol module.
    ProtocolStart,
    /// Writes bytes; one argument.
    ProtocolWrite,
    /// Reads bytes; one argument.
    ProtocolRead,
    /// Confirms; one argument, a map.
    ProtocolConfirm,
    /// Asks for a key; one argument, a map.
    ProtocolNeedKey,
    /// Ends the asking for a key; one argument, a map.
    ProtocolNeedKeyDone,
    /// Asks for the authentication details; no arguments.
    ProtocolAuthInfo,
}

impl CodeConvert for ProtocolMethod {
    open spec fn code(&self) -> u64 {
        match self {
            ProtocolMethod::ProtocolStart => 12,
            ProtocolMethod::ProtocolWrite => 13,
            ProtocolMethod::ProtocolRead => 14,
            ProtocolMethod::ProtocolConfirm => 15,
            ProtocolMethod::ProtocolNeedKey => 16,
            ProtocolMethod::ProtocolNeedKeyDone => 17,
            ProtocolMethod::ProtocolAuthInfo => 18,
        }
    }

    open spec fn decode(n: u64) -> Option<Self> {
        if n == 12 {
            Some(ProtocolMethod::ProtocolStart)
        } else if n == 13 {
            Some(ProtocolMethod::ProtocolWrite)
        } else if n == 14 {
            Some(ProtocolMethod::ProtocolRead)
        } else if n == 15 {
            Some(ProtocolMethod::ProtocolConfirm)
        } else if n == 16 {
            Some(ProtocolMethod::ProtocolNeedKey)
        } else if n == 17 {
            Some(ProtocolMethod::ProtocolNeedKeyDone)
        } else if n == 18 {
            Some(ProtocolMethod::ProtocolAuthInfo)
        } else {
            None
        }
    }

    proof fn lemma_code_decode(c: Self) {
    }

    proof fn lemma_decode_code(n: u64) {
    }

    fn from_u64(n: u64) -> (r: Result<Self, RpcError>) {
        if n == 12 {
            Ok(ProtocolMethod::ProtocolStart)
        } else if n == 13 {
            Ok(ProtocolMethod::ProtocolWrite)
        } else if n == 14 {
            Ok(ProtocolMethod::ProtocolRead)
        } else if n == 15 {
            Ok(ProtocolMethod::ProtocolConfirm)
        } else if n == 16 {
            Ok(ProtocolMethod::ProtocolNeedKey)
        } else if n == 17 {
            Ok(ProtocolMethod::ProtocolNeedKeyDone)
        } else if n == 18 {
            Ok(ProtocolMethod::ProtocolAuthInfo)
        } else {
            Err(RpcError::InvalidCode)
        }
    }

    fn to_u64(&self) -> (n: u64) {
        match self {
            ProtocolMethod::ProtocolStart => 12,
            ProtocolMethod::ProtocolWrite => 13,
            ProtocolMethod::ProtocolRead => 14,
            ProtocolMethod::ProtocolConfirm => 15,
            ProtocolMethod::ProtocolNeedKey => 16,
            ProtocolMethod::ProtocolNeedKeyDone => 17,
            ProtocolMethod::ProtocolAuthInfo => 18,
        }
    }

    fn max_number() -> (n: u64) {
        18
    }
}

/// The error codes of the answers to a `ProtocolMethod`.
#[derive(Debug, PartialEq, Eq, Clone, Copy, Structural)]
pub enum ProtocolError {
    /// No error.
    Nil,
    /// No protocol module of that name.
    UnknownProtocol,
    /// The protocol message is malformed.
    InvalidProtocolMessage,
    /// The protocol failed.
    ProtocolError,
    /// The protocol needs a key.
    ProtocolNeedKey,
    /// The protocol needs a confirmation.
    ProtocolNeedConfirmation,
    /// The authentication is not valid.
    InvalidProtocolAuth,
}

impl CodeConvert for ProtocolError {
    open spec fn code(&self) -> u64 {
        match self {
            ProtocolError::Nil => 0,
            ProtocolError::UnknownProtocol => 19,
            ProtocolError::InvalidProtocolMessage => 20,
            ProtocolError::ProtocolError => 21,
            ProtocolError::ProtocolNeedKey => 22,
            ProtocolError::ProtocolNeedConfirmation => 23,
            ProtocolError::InvalidProtocolAuth => 24,
        }
    }

    open spec fn decode(n: u64) -> Option<Self> {
        if n == 0 {
            Some(ProtocolError::Nil)
        } else if n == 19 {
            Some(ProtocolError::UnknownProtocol)
        } else if n == 20 {
            Some(ProtocolError::InvalidProtocolMessage)
        } else if n == 21 {
            Some(ProtocolError::ProtocolError)
        } else if n == 22 {
            Some(ProtocolError::ProtocolNeedKey)
        } else if n == 23 {
            Some(ProtocolError::ProtocolNeedConfirmation)
        } else if n == 24 {
            Some(ProtocolError::InvalidProtocolAuth)
        } else {
            None
        }
    }

    proof fn lemma_code_decode(c: Self) {
    }

    proof fn lemma_decode_code(n: u64) {
    }

    fn from_u64(n: u64) -> (r: Result<Self, RpcError>) {
        if n == 0 {
            Ok(ProtocolError::Nil)
        } else if n == 19 {
            Ok(ProtocolError::UnknownProtocol)
        } else if n == 20 {
            Ok(ProtocolError::InvalidProtocolMessage)
        } else if n == 21 {
            Ok(ProtocolError::ProtocolError)
        } else if n == 22 {
            Ok(ProtocolError::ProtocolNeedKey)
        } else if n == 23 {
            Ok(ProtocolError::ProtocolNeedConfirmation)
        } else if n == 24 {
            Ok(ProtocolError::InvalidProtocolAuth)
        } else {
            Err(RpcError::InvalidCode)
        }
    }

    fn to_u64(&self) -> (n: u64) {
        match self {
            ProtocolError::Nil => 0,
            ProtocolError::UnknownProtocol => 19,
            ProtocolError::InvalidProtocolMessage => 20,
            ProtocolError::ProtocolError => 21,
            ProtocolError::ProtocolNeedKey => 22,
            ProtocolError::ProtocolNeedConfirmation => 23,
            ProtocolError::InvalidProtocolAuth => 24,
        }
    }

    fn max_number() -> (n: u64) {
        24
    }
}

} // verus!
