//! The library's error types.

use vstd::prelude::*;

verus! {

/// A mapping descriptor that cannot be turned into a mapping.
#[derive(Debug, Clone, Copy, PartialEq, Eq, Structural)]
pub enum ConfigError {
    InvalidEvent,
    InvalidKey,
    InvalidOutgoingMessage,
    InvalidDeviceCommand,
}

/// An inbound frame that is not a well-formed live message.
#[derive(Debug, Clone, Copy, PartialEq, Eq, Structural)]
pub enum ProtocolError {
    Malformed,
}

/// The leg of a dispatch whose sink failed.
#[derive(Debug, Clone, Copy, PartialEq, Eq, Structural)]
pub enum Leg {
    Keys,
    Outgoing,
    Device,
}

/// A dispatch that did not complete.
#[derive(Debug, Clone, Copy, PartialEq, Eq, Structural)]
pub enum DispatchError {
    Protocol(ProtocolError),
    SinkFailure(Leg),
}

} // verus!
