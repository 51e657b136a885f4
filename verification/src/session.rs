//! The playback session: one negotiated configuration, one playback buffer
//! and the lifecycle that takes a stream from open to drained close.
//!
//! The session decides; its caller acts. The caller opens the hardware
//! stream, waits on the relay channel and sleeps, and reports each outcome
//! as an event. The session answers with the next thing to do.

use vstd::prelude::*;
use crate::buffer::{consumed_count, rendered, upmix_applies, PlaybackBuffer};
use crate::error::RelayError;
use crate::ingest::SampleChunk;
use crate::negotiate::{device_view, negotiated, negotiate, ConfigRange, DeviceConfig, Negotiated};
use crate::request::StreamRequest;

verus! {

/// Number of chunks the relay channel holds before the producer has to wait.
pub const RELAY_CAPACITY: usize = 64;

/// Seconds the stream stays open after the producer has closed the channel.
pub const DRAIN_GRACE_SECONDS: u64 = 2;

/// Where a session is in its life.
#[derive(Clone, Copy, Debug, PartialEq, Eq, Structural)]
pub enum SessionState {
    /// A configuration is bound; the hardware stream is not open yet.
    Negotiating,
    /// The stream is open and playing; chunks are being received.
    Streaming,
    /// The producer has closed; the stream plays out what is buffered.
    Draining,
    /// The stream is stopped and released.
    Closed,
}

/// What the caller reports to the session.
pub enum SessionEvent {
    /// The hardware accepted the configuration and the stream is playing.
    StreamOpened,
    /// The hardware refused the configuration.
    StreamRefused,
    /// The relay channel delivered a chunk.
    ChunkArrived(SampleChunk),
    /// The relay channel reported that its producer is closed.
    ProducerClosed,
    /// The grace interval is over.
    GraceElapsed,
}

/// The event that an answer of the relay channel stands for.
pub open spec fn received_event(received: Option<SampleChunk>) -> SessionEvent {
    match received {
        Some(chunk) => SessionEvent::ChunkArrived(chunk),
        None => SessionEvent::ProducerClosed,
    }
}

/// The condition that an event reports, if it reports one.
pub open spec fn condition_of(event: SessionEvent) -> Option<RelayError> {
    match event {
        SessionEvent::StreamRefused => Some(RelayError::StreamConstructionFailed),
        SessionEvent::ProducerClosed => Some(RelayError::PeerDisconnected),
        _ => None,
    }
}

impl SessionEvent {
    /// The condition that the event reports: a refused stream is a failed
    /// stream construction, a closed producer is a disconnected peer. The
    /// other events report none.
    pub fn condition(&self) -> (condition: Option<RelayError>)
        ensures
            condition == condition_of(*self),
    {
        match self {
            SessionEvent::StreamRefused => Some(RelayError::StreamConstructionFailed),
            SessionEvent::ProducerClosed => Some(RelayError::PeerDisconnected),
            _ => None,
        }
    }

    /// Turns what a blocking receive on the relay channel returned into an
    /// event: a chunk has arrived, or, where the channel gave nothing, its
    /// producer is closed and the stream of chunks has ended.
    pub fn from_received(received: Option<SampleChunk>) -> (event: SessionEvent)
        ensures
            event == received_event(received),
    {
        match received {
            Some(chunk) => SessionEvent::ChunkArrived(chunk),
            None => SessionEvent::ProducerClosed,
        }
    }
}

/// What the session asks of the caller next.
#[derive(Clone, Copy, Debug, PartialEq, Eq, Structural)]
pub enum SessionAction {
    /// Wait on the relay channel for the next chunk or for its closure.
    AwaitChunk,
    /// Keep the stream open and playing for this many seconds, then report
    /// that the grace interval is over.
    HoldOpen { seconds: u64 },
    /// Stop and release the hardware stream.
    ReleaseStream,
    /// Give the session up and log the condition.
    Abandon { error: RelayError },
    /// The event has no meaning in this state; nothing changes.
    Nothing,
}

/// The position of a state along the lifecycle.
pub open spec fn rank(state: SessionState) -> int {
    match state {
        SessionState::Negotiating => 0,
        SessionState::Streaming => 1,
        SessionState::Draining => 2,
        SessionState::Closed => 3,
    }
}

/// The hardware stream exists and plays in this state.
pub open spec fn stream_open(state: SessionState) -> bool {
    state == SessionState::Streaming || state == SessionState::Draining
}

/// The state after an event. `refused` says whether the hardware has refused
/// the stream of this session before.
pub open spec fn next_state(state: SessionState, refused: bool, event: SessionEvent) -> SessionState {
    match (state, event) {
        (SessionState::Negotiating, SessionEvent::StreamOpened) => if refused {
            SessionState::Negotiating
        } else {
            SessionState::Streaming
        },
        (SessionState::Streaming, SessionEvent::ProducerClosed) => SessionState::Draining,
        (SessionState::Draining, SessionEvent::GraceElapsed) => SessionState::Closed,
        _ => state,
    }
}

/// Whether the stream of the session has been refused, after an event.
pub open spec fn next_refused(state: SessionState, refused: bool, event: SessionEvent) -> bool {
    match (state, event) {
        (SessionState::Negotiating, SessionEvent::StreamRefused) => true,
        _ => refused,
    }
}

/// The buffered samples after an event.
pub open spec fn next_pending(state: SessionState, pending: Seq<i16>, event: SessionEvent) -> Seq<
    i16,
> {
    match (state, event) {
        (SessionState::Streaming, SessionEvent::ChunkArrived(chunk)) => pending + chunk@,
        _ => pending,
    }
}

/// What the caller is to do after an event.
pub open spec fn action_for(state: SessionState, refused: bool, event: SessionEvent) -> SessionAction {
    match (state, event) {
        (SessionState::Negotiating, SessionEvent::StreamOpened) => if refused {
            SessionAction::Nothing
        } else {
            SessionAction::AwaitChunk
        },
        (SessionState::Negotiating, SessionEvent::StreamRefused) => if refused {
            SessionAction::Nothing
        } else {
            SessionAction::Abandon { error: RelayError::StreamConstructionFailed }
        },
        (SessionState::Streaming, SessionEvent::ChunkArrived(_)) => SessionAction::AwaitChunk,
        (SessionState::Streaming, SessionEvent::ProducerClosed) => SessionAction::HoldOpen {
            seconds: DRAIN_GRACE_SECONDS,
        },
        (SessionState::Draining, SessionEvent::GraceElapsed) => SessionAction::ReleaseStream,
        _ => SessionAction::Nothing,
    }
}

/// Silence in `n` output positions.
pub open spec fn silence(n: nat) -> Seq<i16> {
    Seq::new(n, |i: int| 0i16)
}

/// What a render writes into `n` output positions in a given state.
pub open spec fn render_output(state: SessionState, pending: Seq<i16>, upmix: bool, n: nat) -> Seq<
    i16,
> {
    if stream_open(state) {
        rendered(pending, upmix, n)
    } else {
        silence(n)
    }
}

/// The number of buffered samples that a render takes in a given state.
pub open spec fn render_takes(state: SessionState, queued: nat, upmix: bool, n: nat) -> nat {
    if stream_open(state) {
        consumed_count(queued, upmix, n)
    } else {
        0
    }
}

/// No event takes a session back, and none takes it further than the next
/// state of the lifecycle.
pub proof fn lemma_no_state_is_skipped(state: SessionState, refused: bool, event: SessionEvent)
    ensures
        rank(next_state(state, refused, event)) == rank(state) || rank(
            next_state(state, refused, event),
        ) == rank(state) + 1,
{
}

/// A closed session stays closed: no event changes its state or its buffer,
/// and none asks anything of the caller.
pub proof fn lemma_closed_is_terminal(refused: bool, pending: Seq<i16>, event: SessionEvent)
    ensures
        next_state(SessionState::Closed, refused, event) == SessionState::Closed,
        next_refused(SessionState::Closed, refused, event) == refused,
        next_pending(SessionState::Closed, pending, event) == pending,
        action_for(SessionState::Closed, refused, event) == SessionAction::Nothing,
{
}

/// A session whose stream the hardware has refused never reaches streaming:
/// whatever event follows, it stays where it is, refused, with an empty hand
/// for the caller.
pub proof fn lemma_refused_never_streams(event: SessionEvent)
    ensures
        next_state(SessionState::Negotiating, false, SessionEvent::StreamRefused)
            == SessionState::Negotiating,
        next_refused(SessionState::Negotiating, false, SessionEvent::StreamRefused),
        action_for(SessionState::Negotiating, false, SessionEvent::StreamRefused)
            == (SessionAction::Abandon { error: RelayError::StreamConstructionFailed }),
        next_state(SessionState::Negotiating, true, event) == SessionState::Negotiating,
        next_refused(SessionState::Negotiating, true, event),
        action_for(SessionState::Negotiating, true, event) == SessionAction::Nothing,
{
}

/// Only the report that the stream is open takes a session to streaming, and
/// only from negotiating.
pub proof fn lemma_streaming_needs_open_stream(
    state: SessionState,
    refused: bool,
    event: SessionEvent,
)
    requires
        state != SessionState::Streaming,
        next_state(state, refused, event) == SessionState::Streaming,
    ensures
        state == SessionState::Negotiating,
        !refused,
        event == SessionEvent::StreamOpened,
{
}

/// When the producer closes the relay channel, a streaming session starts to
/// drain with its buffer intact and holds the stream open for the grace
/// interval. When the interval is over the session is closed and the stream
/// is released. From then on no render plays anything: it takes no sample
/// and writes silence.
pub proof fn lemma_close_drains_then_releases(
    refused: bool,
    pending: Seq<i16>,
    upmix: bool,
    n: nat,
)
    ensures
        next_state(SessionState::Streaming, refused, SessionEvent::ProducerClosed)
            == SessionState::Draining,
        next_pending(SessionState::Streaming, pending, SessionEvent::ProducerClosed) == pending,
        action_for(SessionState::Streaming, refused, SessionEvent::ProducerClosed)
            == (SessionAction::HoldOpen { seconds: DRAIN_GRACE_SECONDS }),
        render_output(SessionState::Draining, pending, upmix, n) == rendered(pending, upmix, n),
        next_state(SessionState::Draining, refused, SessionEvent::GraceElapsed)
            == SessionState::Closed,
        action_for(SessionState::Draining, refused, SessionEvent::GraceElapsed)
            == SessionAction::ReleaseStream,
        render_takes(SessionState::Closed, pending.len(), upmix, n) == 0,
        render_output(SessionState::Closed, pending, upmix, n) == silence(n),
{
}

/// The acknowledgment sent once the byte stream has ended: what was asked
/// for and what was negotiated.
#[derive(Clone, Copy, Debug, PartialEq, Eq, Structural)]
pub struct StreamAck {
    pub requested_sample_rate: u32,
    pub requested_channels: u16,
    pub actual_sample_rate: u32,
    pub actual_channels: u16,
}

/// The acknowledgment for a request and the configuration negotiated for it.
pub open spec fn ack_of(request: StreamRequest, config: DeviceConfig) -> StreamAck {
    StreamAck {
        requested_sample_rate: request.requested_sample_rate,
        requested_channels: request.requested_channels,
        actual_sample_rate: config.sample_rate,
        actual_channels: config.channels,
    }
}

impl StreamAck {
    /// The acknowledgment for a request and its negotiated configuration.
    pub fn new(request: &StreamRequest, config: &DeviceConfig) -> (ack: StreamAck)
        ensures
            ack == ack_of(*request, *config),
    {
        StreamAck {
            requested_sample_rate: request.requested_sample_rate,
            requested_channels: request.requested_channels,
            actual_sample_rate: config.sample_rate,
            actual_channels: config.channels,
        }
    }

    /// Whether the negotiated configuration differs from the requested one.
    pub fn deviates(&self) -> (differs: bool)
        ensures
            differs <==> (self.actual_sample_rate != self.requested_sample_rate
                || self.actual_channels != self.requested_channels),
    {
        self.actual_sample_rate != self.requested_sample_rate || self.actual_channels
            != self.requested_channels
    }
}

/// One stream request being played.
pub struct PlaybackSession {
    state: SessionState,
    refused: bool,
    request: StreamRequest,
    negotiated: Negotiated,
    buffer: PlaybackBuffer,
}

impl PlaybackSession {
    /// The lifecycle state.
    pub closed spec fn state(&self) -> SessionState {
        self.state
    }

    /// Whether the hardware has refused the stream of this session.
    pub closed spec fn refused(&self) -> bool {
        self.refused
    }

    /// The request the session serves.
    pub closed spec fn request(&self) -> StreamRequest {
        self.request
    }

    /// The configuration the session is bound to.
    pub closed spec fn config(&self) -> DeviceConfig {
        self.negotiated.config
    }

    /// Whether the configuration is the fallback, taken because no candidate
    /// admitted the request.
    pub closed spec fn fallback(&self) -> bool {
        self.negotiated.fallback
    }

    /// The samples buffered and not yet rendered, in arrival order.
    pub closed spec fn pending(&self) -> Seq<i16> {
        self.buffer@
    }

    /// Whether renders duplicate each sample into both channels of a frame.
    pub open spec fn upmixes(&self) -> bool {
        upmix_applies(self.request().requested_channels, self.config().channels)
    }

    /// Starts a session: negotiates a configuration for the request among the
    /// candidates of the host's default output device. No session comes of a
    /// failed negotiation.
    pub fn negotiate(request: StreamRequest, device: Option<&[ConfigRange]>) -> (result: Result<
        PlaybackSession,
        RelayError,
    >)
        ensures
            match negotiated(device_view(device), request) {
                Ok(n) => {
                    &&& result matches Ok(session)
                    &&& session.state() == SessionState::Negotiating
                    &&& !session.refused()
                    &&& session.request() == request
                    &&& session.config() == n.config
                    &&& session.fallback() == n.fallback
                    &&& session.pending() == Seq::<i16>::empty()
                },
                Err(e) => result matches Err(err) && err == e,
            },
    {
        match negotiate(&request, device) {
            Ok(n) => Ok(PlaybackSession::bound(request, n)),
            Err(e) => Err(e),
        }
    }

    /// A session for a request and the outcome of a negotiation for it.
    pub fn bound(request: StreamRequest, negotiated: Negotiated) -> (session: PlaybackSession)
        ensures
            session.state() == SessionState::Negotiating,
            !session.refused(),
            session.request() == request,
            session.config() == negotiated.config,
            session.fallback() == negotiated.fallback,
            session.pending() == Seq::<i16>::empty(),
    {
        PlaybackSession {
            state: SessionState::Negotiating,
            refused: false,
            request,
            negotiated,
            buffer: PlaybackBuffer::new(),
        }
    }

    /// Whether the configuration is the fallback.
    pub fn used_fallback(&self) -> (fallback: bool)
        ensures
            fallback == self.fallback(),
    {
        self.negotiated.fallback
    }

    /// The lifecycle state.
    pub fn current_state(&self) -> (state: SessionState)
        ensures
            state == self.state(),
    {
        self.state
    }

    /// Whether the hardware has refused the stream of this session.
    pub fn was_refused(&self) -> (refused: bool)
        ensures
            refused == self.refused(),
    {
        self.refused
    }

    /// The request the session serves.
    pub fn served_request(&self) -> (request: StreamRequest)
        ensures
            request == self.request(),
    {
        self.request
    }

    /// The configuration the session is bound to.
    pub fn bound_config(&self) -> (config: DeviceConfig)
        ensures
            config == self.config(),
    {
        self.negotiated.config
    }

    /// The number of samples buffered and not yet rendered.
    pub fn buffered(&self) -> (n: usize)
        ensures
            n == self.pending().len(),
    {
        self.buffer.len()
    }

    /// Whether renders upmix mono to stereo.
    pub fn is_upmixing(&self) -> (upmix: bool)
        ensures
            upmix == self.upmixes(),
    {
        self.request.requested_channels == 1 && self.negotiated.config.channels == 2
    }

    /// The acknowledgment for this session.
    pub fn acknowledgment(&self) -> (ack: StreamAck)
        ensures
            ack == ack_of(self.request(), self.config()),
    {
        StreamAck::new(&self.request, &self.negotiated.config)
    }

    /// Takes one event and says what to do next. An event that has no
    /// meaning in the current state changes nothing.
    pub fn step(&mut self, event: SessionEvent) -> (action: SessionAction)
        ensures
            final(self).state() == next_state(old(self).state(), old(self).refused(), event),
            final(self).refused() == next_refused(old(self).state(), old(self).refused(), event),
            final(self).pending() == next_pending(old(self).state(), old(self).pending(), event),
            final(self).request() == old(self).request(),
            final(self).config() == old(self).config(),
            final(self).fallback() == old(self).fallback(),
            action == action_for(old(self).state(), old(self).refused(), event),
    {
        match (self.state, event) {
            (SessionState::Negotiating, SessionEvent::StreamOpened) => {
                if self.refused {
                    SessionAction::Nothing
                } else {
                    self.state = SessionState::Streaming;
                    SessionAction::AwaitChunk
                }
            },
            (SessionState::Negotiating, SessionEvent::StreamRefused) => {
                if self.refused {
                    SessionAction::Nothing
                } else {
                    self.refused = true;
                    SessionAction::Abandon { error: RelayError::StreamConstructionFailed }
                }
            },
            (SessionState::Streaming, SessionEvent::ChunkArrived(chunk)) => {
                self.buffer.append(chunk);
                SessionAction::AwaitChunk
            },
            (SessionState::Streaming, SessionEvent::ProducerClosed) => {
                self.state = SessionState::Draining;
                SessionAction::HoldOpen { seconds: DRAIN_GRACE_SECONDS }
            },
            (SessionState::Draining, SessionEvent::GraceElapsed) => {
                self.state = SessionState::Closed;
                SessionAction::ReleaseStream
            },
            _ => SessionAction::Nothing,
        }
    }

    /// The render callback. While the stream is open, fills `out` from the
    /// front of the buffer and removes what it played, with silence where the
    /// buffer runs out. Without an open stream nothing is played: `out` is
    /// silence and the buffer keeps its samples. Never waits.
    pub fn render(&mut self, out: &mut [i16]) -> (consumed: usize)
        requires
            stream_open(old(self).state()) && old(self).upmixes() ==> old(out)@.len() % 2 == 0,
        ensures
            final(self).state() == old(self).state(),
            final(self).refused() == old(self).refused(),
            final(self).request() == old(self).request(),
            final(self).config() == old(self).config(),
            final(self).fallback() == old(self).fallback(),
            final(out)@ == render_output(
                old(self).state(),
                old(self).pending(),
                old(self).upmixes(),
                old(out)@.len(),
            ),
            consumed == render_takes(
                old(self).state(),
                old(self).pending().len(),
                old(self).upmixes(),
                old(out)@.len(),
            ),
            final(self).pending() == old(self).pending().skip(consumed as int),
    {
        match self.state {
            SessionState::Streaming | SessionState::Draining => self.buffer.render(
                out,
                self.request.requested_channels,
                self.negotiated.config.channels,
            ),
            _ => {
                let n: usize = out.len();
                let mut i: usize = 0;
                while i < n
                    invariant
                        n == out@.len(),
                        i <= n,
                        forall|j: int| 0 <= j < i ==> out@[j] == 0i16,
                    decreases n - i,
                {
                    out[i] = 0;
                    i = i + 1;
                }
                proof {
                    assert(out@ =~= silence(n as nat));
                    assert(self.buffer@.skip(0) =~= self.buffer@);
                }
                0
            },
        }
    }
}

} // verus!
