//! Device negotiation: choosing the output configuration for a request
//! among the configurations that the default output device enumerates.

use vstd::prelude::*;
use crate::error::RelayError;
use crate::request::StreamRequest;

verus! {

/// The sample encodings a host can ask for. Negotiation carries the format
/// of the chosen candidate through; it does not choose by it.
#[derive(Clone, Copy, Debug, PartialEq, Eq, Structural)]
pub enum SampleFormat {
    I8,
    I16,
    I24,
    I32,
    I64,
    U8,
    U16,
    U32,
    U64,
    F32,
    F64,
    /// An encoding that has no name here.
    Other,
}

/// One enumerated candidate: a channel count, a sample format and the
/// inclusive range of sample rates it supports.
#[derive(Clone, Copy, Debug, PartialEq, Eq, Structural)]
pub struct ConfigRange {
    pub channels: u16,
    pub min_sample_rate: u32,
    pub max_sample_rate: u32,
    pub sample_format: SampleFormat,
}

/// The configuration a session is bound to.
#[derive(Clone, Copy, Debug, PartialEq, Eq, Structural)]
pub struct DeviceConfig {
    pub sample_rate: u32,
    pub channels: u16,
    pub sample_format: SampleFormat,
}

/// The outcome of a successful negotiation.
#[derive(Clone, Copy, Debug, PartialEq, Eq, Structural)]
pub struct Negotiated {
    pub config: DeviceConfig,
    /// No candidate admitted the request and the first candidate was taken instead.
    pub fallback: bool,
}

/// The candidate has the requested channel count and its rate range contains
/// the requested rate.
pub open spec fn admits(candidate: ConfigRange, request: StreamRequest) -> bool {
    &&& candidate.channels == request.requested_channels
    &&& candidate.min_sample_rate <= request.requested_sample_rate
    &&& request.requested_sample_rate <= candidate.max_sample_rate
}

/// Some candidate admits the request.
pub open spec fn has_match(candidates: Seq<ConfigRange>, request: StreamRequest) -> bool {
    exists|i: int| 0 <= i < candidates.len() && admits(#[trigger] candidates[i], request)
}

/// `i` is the position of the first candidate that admits the request.
pub open spec fn is_first_match(candidates: Seq<ConfigRange>, request: StreamRequest, i: int) -> bool {
    &&& 0 <= i < candidates.len()
    &&& admits(candidates[i], request)
    &&& forall|j: int| 0 <= j < i ==> !admits(#[trigger] candidates[j], request)
}

/// The position of the first candidate that admits the request, where one does.
pub open spec fn first_match(candidates: Seq<ConfigRange>, request: StreamRequest) -> int {
    choose|i: int| is_first_match(candidates, request, i)
}

/// The candidate bound to one sample rate.
pub open spec fn bind(candidate: ConfigRange, sample_rate: u32) -> DeviceConfig {
    DeviceConfig {
        sample_rate,
        channels: candidate.channels,
        sample_format: candidate.sample_format,
    }
}

/// What negotiation yields on a list of candidates: the first candidate that
/// admits the request, at the requested rate; else the first candidate of all,
/// at its own minimum rate; else, on an empty list, no configuration.
pub open spec fn selected(candidates: Seq<ConfigRange>, request: StreamRequest) -> Result<
    Negotiated,
    RelayError,
> {
    if has_match(candidates, request) {
        Ok(
            Negotiated {
                config: bind(
                    candidates[first_match(candidates, request)],
                    request.requested_sample_rate,
                ),
                fallback: false,
            },
        )
    } else if candidates.len() > 0 {
        Ok(Negotiated { config: bind(candidates[0], candidates[0].min_sample_rate), fallback: true })
    } else {
        Err(RelayError::NoSupportedConfig)
    }
}

/// What negotiation yields on a host: without a default output device no
/// device, else what the device's candidates give.
pub open spec fn negotiated(device: Option<Seq<ConfigRange>>, request: StreamRequest) -> Result<
    Negotiated,
    RelayError,
> {
    match device {
        None => Err(RelayError::NoOutputDevice),
        Some(candidates) => selected(candidates, request),
    }
}

/// The candidates of an optional device, as a sequence.
pub open spec fn device_view(device: Option<&[ConfigRange]>) -> Option<Seq<ConfigRange>> {
    match device {
        Some(candidates) => Some(candidates@),
        None => None,
    }
}

/// Only one position is the first match, and negotiation selects the
/// candidate at that position, at the requested rate.
pub proof fn lemma_first_match_unique(
    candidates: Seq<ConfigRange>,
    request: StreamRequest,
    i: int,
)
    requires
        is_first_match(candidates, request, i),
    ensures
        has_match(candidates, request),
        first_match(candidates, request) == i,
        selected(candidates, request) == Ok::<Negotiated, RelayError>(
            Negotiated {
                config: bind(candidates[i], request.requested_sample_rate),
                fallback: false,
            },
        ),
{
    let k = first_match(candidates, request);
    assert(is_first_match(candidates, request, k));
    if k < i {
        assert(!admits(candidates[k], request));
    } else if i < k {
        assert(!admits(candidates[i], request));
    }
}

/// A request that some candidate admits is granted as asked: the negotiated
/// rate and channel count are the requested ones, on the first candidate that
/// admits them, and no fallback is taken.
pub proof fn lemma_match_grants_request(candidates: Seq<ConfigRange>, request: StreamRequest)
    requires
        has_match(candidates, request),
    ensures
        selected(candidates, request) matches Ok(n) && {
            &&& n.config.sample_rate == request.requested_sample_rate
            &&& n.config.channels == request.requested_channels
            &&& !n.fallback
            &&& is_first_match(candidates, request, first_match(candidates, request))
            &&& n.config.sample_format == candidates[first_match(
                candidates,
                request,
            )].sample_format
        },
{
    let k = choose|k: int| 0 <= k < candidates.len() && admits(#[trigger] candidates[k], request);
    lemma_some_match_is_first(candidates, request, k);
}

/// Up to and including any candidate that admits the request there is a first
/// one that does.
proof fn lemma_some_match_is_first(candidates: Seq<ConfigRange>, request: StreamRequest, k: int)
    requires
        0 <= k < candidates.len(),
        admits(candidates[k], request),
    ensures
        exists|i: int| is_first_match(candidates, request, i),
        is_first_match(candidates, request, first_match(candidates, request)),
    decreases k,
{
    if forall|j: int| 0 <= j < k ==> !admits(#[trigger] candidates[j], request) {
        assert(is_first_match(candidates, request, k));
    } else {
        let j = choose|j: int| 0 <= j < k && admits(#[trigger] candidates[j], request);
        lemma_some_match_is_first(candidates, request, j);
    }
}

/// A request that no candidate admits, on a device with at least one
/// candidate, falls back to the first candidate: its channel count, its
/// format and its own minimum rate, whatever rate was asked for.
pub proof fn lemma_no_match_falls_back(candidates: Seq<ConfigRange>, request: StreamRequest)
    requires
        !has_match(candidates, request),
        candidates.len() > 0,
    ensures
        selected(candidates, request) matches Ok(n) && {
            &&& n.config.channels == candidates[0].channels
            &&& n.config.sample_rate == candidates[0].min_sample_rate
            &&& n.config.sample_format == candidates[0].sample_format
            &&& n.fallback
        },
{
}

/// Negotiation fails on an empty list of candidates and on nothing else.
pub proof fn lemma_selection_fails_only_on_empty(
    candidates: Seq<ConfigRange>,
    request: StreamRequest,
)
    ensures
        selected(candidates, request).is_err() <==> candidates.len() == 0,
        selected(candidates, request).is_err() ==> selected(candidates, request) == Err::<
            Negotiated,
            RelayError,
        >(RelayError::NoSupportedConfig),
{
    if candidates.len() == 0 {
        assert(!has_match(candidates, request));
    }
}

/// Chooses among the candidates of one device.
pub fn select_config(request: &StreamRequest, candidates: &[ConfigRange]) -> (result: Result<
    Negotiated,
    RelayError,
>)
    ensures
        result == selected(candidates@, *request),
{
    let n: usize = candidates.len();
    let mut i: usize = 0;
    while i < n
        invariant
            n == candidates@.len(),
            i <= n,
            forall|j: int| 0 <= j < i ==> !admits(#[trigger] candidates@[j], *request),
        decreases n - i,
    {
        let c: ConfigRange = candidates[i];
        if c.channels == request.requested_channels && c.min_sample_rate
            <= request.requested_sample_rate && request.requested_sample_rate
            <= c.max_sample_rate {
            proof {
                lemma_first_match_unique(candidates@, *request, i as int);
            }
            return Ok(
                Negotiated {
                    config: DeviceConfig {
                        sample_rate: request.requested_sample_rate,
                        channels: c.channels,
                        sample_format: c.sample_format,
                    },
                    fallback: false,
                },
            );
        }
        i = i + 1;
    }
    if n > 0 {
        let first: ConfigRange = candidates[0];
        Ok(
            Negotiated {
                config: DeviceConfig {
                    sample_rate: first.min_sample_rate,
                    channels: first.channels,
                    sample_format: first.sample_format,
                },
                fallback: true,
            },
        )
    } else {
        Err(RelayError::NoSupportedConfig)
    }
}

/// Negotiates the output configuration for a request. `device` holds the
/// candidates of the host's default output device, in the order the host
/// enumerates them, or nothing where the host has no such device.
pub fn negotiate(request: &StreamRequest, device: Option<&[ConfigRange]>) -> (result: Result<
    Negotiated,
    RelayError,
>)
    ensures
        result == negotiated(device_view(device), *request),
{
    match device {
        None => Err(RelayError::NoOutputDevice),
        Some(candidates) => select_config(request, candidates),
    }
}

} // verus!
