//! Verified core of a network-to-speaker audio relay: configuration
//! negotiation, PCM ingest, the playback buffer and the session lifecycle.
//! With it come the few rules of the surrounding controls that compute
//! anything.

pub mod buffer;
pub mod decimal;
pub mod error;
pub mod ingest;
pub mod media;
pub mod negotiate;
pub mod request;
pub mod session;
pub mod system;
pub mod upload;
