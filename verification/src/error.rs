//! The conditions that end or prevent a relay session.

use vstd::prelude::*;

verus! {

/// Why a session did not start, or why it stopped.
#[derive(Clone, Copy, Debug, PartialEq, Eq, Structural)]
pub enum RelayError {
    /// The host has no default output device.
    NoOutputDevice,
    /// The device enumerated no configuration at all.
    NoSupportedConfig,
    /// The hardware refused the negotiated configuration when the stream was opened.
    StreamConstructionFailed,
    /// The producer side of the relay channel closed.
    PeerDisconnected,
}

/// The text that goes with each condition.
pub open spec fn message_text(e: RelayError) -> Seq<char> {
    match e {
        RelayError::NoOutputDevice => "No output device available"@,
        RelayError::NoSupportedConfig => "No supported config"@,
        RelayError::StreamConstructionFailed => "Failed to build output stream"@,
        RelayError::PeerDisconnected => "Peer disconnected"@,
    }
}

impl RelayError {
    /// Whether the condition is fatal to the request. A peer that disconnects is
    /// the ordinary end of a stream and starts the drain; every other condition
    /// is fatal.
    pub fn is_fatal(&self) -> (fatal: bool)
        ensures
            fatal <==> *self != RelayError::PeerDisconnected,
    {
        match self {
            RelayError::PeerDisconnected => false,
            _ => true,
        }
    }

    /// A human-readable message for the condition.
    pub fn message(&self) -> (text: &'static str)
        ensures
            text@ == message_text(*self),
    {
        match self {
            RelayError::NoOutputDevice => "No output device available",
            RelayError::NoSupportedConfig => "No supported config",
            RelayError::StreamConstructionFailed => "Failed to build output stream",
            RelayError::PeerDisconnected => "Peer disconnected",
        }
    }
}

} // verus!
