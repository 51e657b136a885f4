//! Sample ingest: raw little-endian bytes to signed 16-bit PCM samples.

use vstd::prelude::*;

verus! {

/// The signed 16-bit sample whose two's-complement encoding has low byte `lo`
/// and high byte `hi`.
pub open spec fn sample_from_le(lo: u8, hi: u8) -> i16 {
    if hi < 128 {
        (256 * hi + lo) as i16
    } else {
        (256 * hi + lo - 65536) as i16
    }
}

/// Low byte of the two's-complement encoding of `s`.
pub open spec fn low_byte(s: i16) -> u8 {
    (if s >= 0 { s as int % 256 } else { (s + 65536) % 256 }) as u8
}

/// High byte of the two's-complement encoding of `s`.
pub open spec fn high_byte(s: i16) -> u8 {
    (if s >= 0 { s as int / 256 } else { (s + 65536) / 256 }) as u8
}

/// Byte at position `i` of a delivery, or zero past its end.
pub open spec fn byte_or_zero(bytes: Seq<u8>, i: int) -> u8 {
    if 0 <= i < bytes.len() {
        bytes[i]
    } else {
        0
    }
}

/// The samples that one delivery of bytes decodes to: consecutive byte pairs,
/// low byte first; a trailing single byte is padded with a zero high byte.
pub open spec fn decoded(bytes: Seq<u8>) -> Seq<i16> {
    Seq::new(
        ((bytes.len() + 1) / 2) as nat,
        |i: int| sample_from_le(byte_or_zero(bytes, 2 * i), byte_or_zero(bytes, 2 * i + 1)),
    )
}

/// A sample keeps the two bytes it was built from.
pub proof fn lemma_sample_bytes(lo: u8, hi: u8)
    ensures
        low_byte(sample_from_le(lo, hi)) == lo,
        high_byte(sample_from_le(lo, hi)) == hi,
{
}

/// A delivery of even length decodes to half as many samples as it has
/// bytes. One of odd length decodes to one sample more than it has whole
/// pairs, and the high byte of that last sample is zero. Every sample holds
/// the bytes at its place, low byte first.
pub proof fn lemma_decoded_shape(bytes: Seq<u8>)
    ensures
        bytes.len() % 2 == 0 ==> decoded(bytes).len() == bytes.len() / 2,
        bytes.len() % 2 == 1 ==> {
            &&& decoded(bytes).len() == bytes.len() / 2 + 1
            &&& high_byte(decoded(bytes).last()) == 0
            &&& low_byte(decoded(bytes).last()) == bytes.last()
            &&& decoded(bytes).last() == bytes.last() as int
        },
        forall|i: int|
            0 <= i < bytes.len() / 2 ==> {
                &&& low_byte(#[trigger] decoded(bytes)[i]) == bytes[2 * i]
                &&& high_byte(decoded(bytes)[i]) == bytes[2 * i + 1]
            },
{
    assert forall|i: int| 0 <= i < bytes.len() / 2 implies {
        &&& low_byte(#[trigger] decoded(bytes)[i]) == bytes[2 * i]
        &&& high_byte(decoded(bytes)[i]) == bytes[2 * i + 1]
    } by {
        lemma_sample_bytes(bytes[2 * i], bytes[2 * i + 1]);
    }
    if bytes.len() % 2 == 1 {
        lemma_sample_bytes(bytes.last(), 0);
    }
}

/// Builds one sample from its two encoded bytes.
pub fn sample_of(lo: u8, hi: u8) -> (s: i16)
    ensures
        s == sample_from_le(lo, hi),
{
    let wide: i32 = 256 * (hi as i32) + (lo as i32);
    if hi < 128 {
        wide as i16
    } else {
        (wide - 65536) as i16
    }
}

/// Decodes one delivery of bytes into a chunk of samples.
pub fn decode_chunk(bytes: &[u8]) -> (samples: Vec<i16>)
    ensures
        samples@ == decoded(bytes@),
{
    let n: usize = bytes.len();
    let pairs: usize = n / 2;
    let mut samples: Vec<i16> = Vec::new();
    let mut k: usize = 0;
    while k < pairs
        invariant
            n == bytes@.len(),
            pairs == n / 2,
            k <= pairs,
            samples@.len() == k,
            forall|j: int| 0 <= j < k ==> samples@[j] == decoded(bytes@)[j],
        decreases pairs - k,
    {
        samples.push(sample_of(bytes[2 * k], bytes[2 * k + 1]));
        k = k + 1;
    }
    if n % 2 == 1 {
        samples.push(sample_of(bytes[n - 1], 0));
    }
    samples
}

/// An ordered run of samples, interleaved by channel where the source has
/// several. A chunk cannot be changed once it is made.
pub struct SampleChunk {
    samples: Vec<i16>,
}

impl View for SampleChunk {
    type V = Seq<i16>;

    closed spec fn view(&self) -> Seq<i16> {
        self.samples@
    }
}

impl SampleChunk {
    /// The chunk that one delivery of bytes decodes to.
    pub fn from_bytes(bytes: &[u8]) -> (chunk: SampleChunk)
        ensures
            chunk@ == decoded(bytes@),
    {
        SampleChunk { samples: decode_chunk(bytes) }
    }

    /// A chunk of the given samples, in their order.
    pub fn from_samples(samples: Vec<i16>) -> (chunk: SampleChunk)
        ensures
            chunk@ == samples@,
    {
        SampleChunk { samples }
    }

    /// The number of samples in the chunk.
    pub fn len(&self) -> (n: usize)
        ensures
            n == self@.len(),
    {
        self.samples.len()
    }

    /// The samples, in order.
    pub fn as_slice(&self) -> (samples: &[i16])
        ensures
            samples@ == self@,
    {
        self.samples.as_slice()
    }

    /// Gives up the chunk for its samples.
    pub fn into_samples(self) -> (samples: Vec<i16>)
        ensures
            samples@ == self@,
    {
        self.samples
    }
}

/// The chunks of one byte stream: one chunk for each delivery, in order,
/// until the source ends or the consumer of the chunks is gone. A stream that
/// has ended does not start again.
pub struct IngestStream {
    finished: bool,
}

impl IngestStream {
    /// The stream has ended.
    pub closed spec fn is_finished(&self) -> bool {
        self.finished
    }

    /// A stream at its start.
    pub fn new() -> (stream: IngestStream)
        ensures
            !stream.is_finished(),
    {
        IngestStream { finished: false }
    }

    /// Whether the stream has ended.
    pub fn finished(&self) -> (done: bool)
        ensures
            done == self.is_finished(),
    {
        self.finished
    }

    /// Takes the next delivery of the source, or its end, and gives the chunk
    /// to offer to the relay channel. A delivery on a live stream gives exactly
    /// one chunk, the bytes of that delivery decoded; nothing is carried over
    /// from one delivery to the next. The end of the source ends the stream.
    /// A stream that has ended gives nothing.
    pub fn next_chunk(&mut self, delivery: Option<&[u8]>) -> (chunk: Option<SampleChunk>)
        ensures
            match delivery {
                Some(bytes) => if old(self).is_finished() {
                    chunk.is_none() && final(self).is_finished()
                } else {
                    &&& chunk matches Some(c)
                    &&& c@ == decoded(bytes@)
                    &&& !final(self).is_finished()
                },
                None => chunk.is_none() && final(self).is_finished(),
            },
    {
        if self.finished {
            return None;
        }
        match delivery {
            Some(bytes) => Some(SampleChunk::from_bytes(bytes)),
            None => {
                self.finished = true;
                None
            },
        }
    }

    /// Records the answer of the relay channel to an offered chunk. A refusal
    /// means that the consumer is gone: the stream ends, which is an ordinary
    /// end and no error. Returns whether to go on reading the source.
    pub fn offer_result(&mut self, accepted: bool) -> (go_on: bool)
        ensures
            final(self).is_finished() == (old(self).is_finished() || !accepted),
            go_on == !final(self).is_finished(),
    {
        if !accepted {
            self.finished = true;
        }
        !self.finished
    }
}

} // verus!
