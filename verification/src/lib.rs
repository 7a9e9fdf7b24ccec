//! The protocol state machine and session handshake of a local
//! session-authentication daemon.

pub mod error;
pub mod message;
pub mod path;
pub mod protocol;
pub mod rpc;
pub mod settings;
pub mod state;
pub mod store;
pub mod text;
pub mod token;
pub mod value;
