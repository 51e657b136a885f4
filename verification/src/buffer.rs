//! The playback buffer: samples waiting to be rendered, appended at the tail
//! by the relay consumer and drained from the front by the render callback.

use vstd::prelude::*;
use std::collections::VecDeque;
use crate::ingest::SampleChunk;

verus! {

/// Whether a stream is upmixed: a mono source played on a stereo output.
pub open spec fn upmix_applies(source_channels: u16, output_channels: u16) -> bool {
    source_channels == 1 && output_channels == 2
}

/// The position in the queue that output position `i` plays.
pub open spec fn source_index(upmix: bool, i: int) -> int {
    if upmix {
        i / 2
    } else {
        i
    }
}

/// The number of queued samples that `n` output positions ask for.
pub open spec fn samples_wanted(upmix: bool, n: nat) -> nat {
    if upmix {
        n / 2
    } else {
        n
    }
}

/// The number of samples that a render of `n` output positions takes from a
/// queue of `queued` samples.
pub open spec fn consumed_count(queued: nat, upmix: bool, n: nat) -> nat {
    if samples_wanted(upmix, n) <= queued {
        samples_wanted(upmix, n)
    } else {
        queued
    }
}

/// What a render writes into `n` output positions: each position plays its
/// queued sample, and silence where the queue has run out.
pub open spec fn rendered(pending: Seq<i16>, upmix: bool, n: nat) -> Seq<i16> {
    Seq::new(
        n,
        |i: int|
            if source_index(upmix, i) < pending.len() {
                pending[source_index(upmix, i)]
            } else {
                0i16
            },
    )
}

/// Where the queue has run out, the output is silence: every position whose
/// sample the queue does not hold is exactly zero, every other position
/// plays its own queued sample, and the render takes all that was queued.
pub proof fn lemma_underrun_is_silence(pending: Seq<i16>, upmix: bool, n: nat)
    requires
        pending.len() < samples_wanted(upmix, n),
    ensures
        forall|i: int|
            0 <= i < n && source_index(upmix, i) >= pending.len() ==> #[trigger] rendered(
                pending,
                upmix,
                n,
            )[i] == 0,
        forall|i: int|
            0 <= i < n && source_index(upmix, i) < pending.len() ==> #[trigger] rendered(
                pending,
                upmix,
                n,
            )[i] == pending[source_index(upmix, i)],
        consumed_count(pending.len(), upmix, n) == pending.len(),
{
}

/// With upmixing, each queued sample that falls within the output fills both
/// channels of its frame.
pub proof fn lemma_upmix_duplicates(pending: Seq<i16>, n: nat)
    requires
        n % 2 == 0,
    ensures
        forall|f: int|
            0 <= f < n / 2 && f < pending.len() ==> {
                &&& #[trigger] rendered(pending, true, n)[2 * f] == pending[f]
                &&& rendered(pending, true, n)[2 * f + 1] == pending[f]
            },
{
    assert forall|f: int| 0 <= f < n / 2 && f < pending.len() implies {
        &&& #[trigger] rendered(pending, true, n)[2 * f] == pending[f]
        &&& rendered(pending, true, n)[2 * f + 1] == pending[f]
    } by {
        assert(source_index(true, 2 * f) == f);
        assert(source_index(true, 2 * f + 1) == f);
    }
}

/// Without upmixing, a render that the queue can satisfy plays the front of
/// the queue in arrival order and leaves the rest, across the boundaries of
/// the chunks that were appended.
pub proof fn lemma_render_keeps_order(first: Seq<i16>, second: Seq<i16>, n: nat)
    requires
        n <= first.len() + second.len(),
    ensures
        rendered(first + second, false, n) == (first + second).take(n as int),
        consumed_count((first + second).len(), false, n) == n,
        rendered(first + second, false, n) + (first + second).skip(n as int) == first + second,
{
    let all = first + second;
    assert(rendered(all, false, n) =~= all.take(n as int));
    assert(all.take(n as int) + all.skip(n as int) =~= all);
}

/// Samples awaiting render, in arrival order. The buffer is touched through
/// two operations only, `append` and `render`, and never reorders.
pub struct PlaybackBuffer {
    pending: VecDeque<i16>,
}

impl View for PlaybackBuffer {
    type V = Seq<i16>;

    closed spec fn view(&self) -> Seq<i16> {
        self.pending@
    }
}

impl PlaybackBuffer {
    /// An empty buffer.
    pub fn new() -> (buffer: PlaybackBuffer)
        ensures
            buffer@ == Seq::<i16>::empty(),
    {
        PlaybackBuffer { pending: VecDeque::new() }
    }

    /// The number of samples waiting.
    pub fn len(&self) -> (n: usize)
        ensures
            n == self@.len(),
    {
        self.pending.len()
    }

    /// Puts the samples of a chunk at the tail, in their order.
    pub fn append(&mut self, chunk: SampleChunk)
        ensures
            final(self)@ == old(self)@ + chunk@,
    {
        let samples: &[i16] = chunk.as_slice();
        let n: usize = samples.len();
        let mut i: usize = 0;
        while i < n
            invariant
                n == samples@.len(),
                i <= n,
                self.pending@ == old(self).pending@ + samples@.take(i as int),
            decreases n - i,
        {
            self.pending.push_back(samples[i]);
            proof {
                assert(samples@.take(i + 1) == samples@.take(i as int).push(samples@[i as int]));
            }
            i = i + 1;
        }
        proof {
            assert(samples@.take(n as int) == samples@);
        }
    }

    /// Fills `out` from the front of the queue and removes what it played.
    /// Where the queue runs out, the rest of `out` is silence. A mono source
    /// on a stereo output is upmixed: `out` then holds whole stereo frames and
    /// each sample fills both channels of one frame. Every other pairing of
    /// channel counts is passed through, one sample per output position.
    /// Returns the number of samples removed. Never waits.
    pub fn render(&mut self, out: &mut [i16], source_channels: u16, output_channels: u16) -> (consumed:
        usize)
        requires
            upmix_applies(source_channels, output_channels) ==> old(out)@.len() % 2 == 0,
        ensures
            final(out)@ == rendered(
                old(self)@,
                upmix_applies(source_channels, output_channels),
                old(out)@.len(),
            ),
            consumed == consumed_count(
                old(self)@.len(),
                upmix_applies(source_channels, output_channels),
                old(out)@.len(),
            ),
            final(self)@ == old(self)@.skip(consumed as int),
    {
        let n: usize = out.len();
        let upmix: bool = source_channels == 1 && output_channels == 2;
        let ghost before = self.pending@;
        let ghost target = rendered(before, upmix, n as nat);
        let mut consumed: usize = 0;
        if upmix {
            let frames: usize = n / 2;
            let mut f: usize = 0;
            while f < frames
                invariant
                    n == out@.len(),
                    n % 2 == 0,
                    frames == n / 2,
                    f <= frames,
                    target == rendered(before, true, n as nat),
                    consumed == consumed_count(before.len(), true, (2 * f) as nat),
                    self.pending@ == before.skip(consumed as int),
                    forall|j: int| 0 <= j < 2 * f ==> out@[j] == target[j],
                decreases frames - f,
            {
                let sample: i16 = match self.pending.pop_front() {
                    Some(s) => {
                        consumed = consumed + 1;
                        s
                    },
                    None => 0,
                };
                out[2 * f] = sample;
                out[2 * f + 1] = sample;
                proof {
                    assert(self.pending@ == before.skip(consumed as int));
                }
                f = f + 1;
            }
        } else {
            let mut i: usize = 0;
            while i < n
                invariant
                    n == out@.len(),
                    i <= n,
                    target == rendered(before, false, n as nat),
                    consumed == consumed_count(before.len(), false, i as nat),
                    self.pending@ == before.skip(consumed as int),
                    forall|j: int| 0 <= j < i ==> out@[j] == target[j],
                decreases n - i,
            {
                let sample: i16 = match self.pending.pop_front() {
                    Some(s) => {
                        consumed = consumed + 1;
                        s
                    },
                    None => 0,
                };
                out[i] = sample;
                proof {
                    assert(self.pending@ == before.skip(consumed as int));
                }
                i = i + 1;
            }
        }
        proof {
            assert(out@ =~= target);
        }
        consumed
    }
}

} // verus!
