//! The stream-initiation request: a sample rate and a channel count, each
//! optional on the wire.

use vstd::prelude::*;
use crate::decimal::{decimal_value, parse_decimal};

verus! {

/// Sample rate assumed when the request names none, or none that reads as a number.
pub const DEFAULT_SAMPLE_RATE: u32 = 44100;

/// Channel count assumed when the request names none, or none that reads as a number.
pub const DEFAULT_CHANNELS: u16 = 1;

/// What the sender asks for. Fixed for the lifetime of a session.
#[derive(Clone, Copy, Debug, PartialEq, Eq, Structural)]
pub struct StreamRequest {
    pub requested_sample_rate: u32,
    pub requested_channels: u16,
}

/// The sample rate that a parameter text asks for.
pub open spec fn rate_of(text: Option<Seq<u8>>) -> u32 {
    match text {
        Some(t) => match decimal_value(t, u32::MAX as nat) {
            Some(v) => v as u32,
            None => DEFAULT_SAMPLE_RATE,
        },
        None => DEFAULT_SAMPLE_RATE,
    }
}

/// The channel count that a parameter text asks for.
pub open spec fn channels_of(text: Option<Seq<u8>>) -> u16 {
    match text {
        Some(t) => match decimal_value(t, u16::MAX as nat) {
            Some(v) => v as u16,
            None => DEFAULT_CHANNELS,
        },
        None => DEFAULT_CHANNELS,
    }
}

/// The bytes of an optional parameter text.
pub open spec fn text_view(text: Option<&[u8]>) -> Option<Seq<u8>> {
    match text {
        Some(t) => Some(t@),
        None => None,
    }
}

impl StreamRequest {
    /// A request for exactly this rate and channel count.
    pub fn new(sample_rate: u32, channels: u16) -> (request: StreamRequest)
        ensures
            request.requested_sample_rate == sample_rate,
            request.requested_channels == channels,
    {
        StreamRequest { requested_sample_rate: sample_rate, requested_channels: channels }
    }

    /// Fills in the default for each parameter that is absent.
    pub fn from_optional(sample_rate: Option<u32>, channels: Option<u16>) -> (request:
        StreamRequest)
        ensures
            request.requested_sample_rate == match sample_rate {
                Some(r) => r,
                None => DEFAULT_SAMPLE_RATE,
            },
            request.requested_channels == match channels {
                Some(c) => c,
                None => DEFAULT_CHANNELS,
            },
    {
        let rate: u32 = match sample_rate {
            Some(r) => r,
            None => DEFAULT_SAMPLE_RATE,
        };
        let count: u16 = match channels {
            Some(c) => c,
            None => DEFAULT_CHANNELS,
        };
        StreamRequest { requested_sample_rate: rate, requested_channels: count }
    }

    /// Reads the two parameters from their decimal texts. A parameter that is
    /// absent, is no decimal number, or does not fit its type takes the default.
    pub fn from_text(sample_rate: Option<&[u8]>, channels: Option<&[u8]>) -> (request:
        StreamRequest)
        ensures
            request.requested_sample_rate == rate_of(text_view(sample_rate)),
            request.requested_channels == channels_of(text_view(channels)),
    {
        let rate: Option<u32> = match sample_rate {
            Some(t) => parse_decimal(t, u32::MAX),
            None => None,
        };
        let count: Option<u16> = match channels {
            Some(t) => match parse_decimal(t, 65535) {
                Some(v) => Some(v as u16),
                None => None,
            },
            None => None,
        };
        StreamRequest::from_optional(rate, count)
    }
}

} // verus!
