//! Audio on its way out of the engine: what the callback does with the
//! samples it is handed, and how samples are laid out in a file.

use vstd::prelude::*;

verus! {

/// The event type that ends the list of events of one callback.
pub const EVENT_LIST_TERMINATED: u32 = 0;

/// What the callback returns to let the synthesis go on.
pub const CALLBACK_CONTINUE: i32 = 0;

/// Whether a call of the callback brings samples: the pointer to them is
/// set and their count is positive. A call that brings none is no error;
/// it is simply passed over.
pub open spec fn spec_carries_audio(wav_present: bool, sample_count: i32) -> bool {
    wav_present && sample_count > 0
}

/// Says whether a call of the callback brings samples.
pub fn carries_audio(wav_present: bool, sample_count: i32) -> (r: bool)
    ensures
        r == spec_carries_audio(wav_present, sample_count),
{
    wav_present && sample_count > 0
}

/// Whether the callback passes over an event while it looks for the one
/// that carries the destination of the samples: it passes over the
/// terminator entries and stops at the first event of any other type.
pub open spec fn spec_skips_event(event_type: u32) -> bool {
    event_type == EVENT_LIST_TERMINATED
}

/// Says whether the callback passes over an event of this type.
pub fn skips_event(event_type: u32) -> (r: bool)
    ensures
        r == spec_skips_event(event_type),
{
    event_type == EVENT_LIST_TERMINATED
}

/// Appends the samples of one callback to the buffer of the synthesis that
/// they belong to, and says how the callback is to return.
pub fn append_samples(buffer: &mut Vec<i16>, samples: &[i16]) -> (r: i32)
    ensures
        final(buffer)@ == old(buffer)@ + samples@,
        r == CALLBACK_CONTINUE,
{
    let ghost before = buffer@;
    let mut i: usize = 0;
    while i < samples.len()
        invariant
            i <= samples@.len(),
            buffer@ == before + samples@.take(i as int),
        decreases samples@.len() - i,
    {
        buffer.push(samples[i]);
        assert(samples@.take(i as int).push(samples@[i as int]) == samples@.take(i + 1));
        i = i + 1;
    }
    assert(samples@.take(i as int) == samples@);
    CALLBACK_CONTINUE
}

/// A sample as an unsigned 16-bit number in two's complement.
pub open spec fn sample_bits(sample: i16) -> int {
    if sample < 0 {
        sample + 0x1_0000
    } else {
        sample as int
    }
}

/// The two bytes of a sample, low byte first.
pub open spec fn le_bytes(sample: i16) -> Seq<u8> {
    seq![(sample_bits(sample) % 256) as u8, (sample_bits(sample) / 256) as u8]
}

/// The sample that two bytes hold, low byte first.
pub open spec fn sample_from_le(low: u8, high: u8) -> i16 {
    let bits = low + 256 * high;
    if bits >= 0x8000 {
        (bits - 0x1_0000) as i16
    } else {
        bits as i16
    }
}

/// Samples as they are written to a file: two bytes each, low byte first,
/// one sample after the other, with nothing before, between or after them.
pub open spec fn samples_to_le(samples: Seq<i16>) -> Seq<u8> {
    Seq::new(2 * samples.len(), |i: int| le_bytes(samples[i / 2])[i % 2])
}

/// The samples that a sequence of bytes holds, two bytes each, low byte
/// first. A last byte without a partner holds none.
pub open spec fn samples_from_le(bytes: Seq<u8>) -> Seq<i16> {
    Seq::new(bytes.len() / 2, |i: int| sample_from_le(bytes[2 * i], bytes[2 * i + 1]))
}

/// Reading back what was written gives the samples that were written.
pub proof fn lemma_samples_round_trip(samples: Seq<i16>)
    ensures
        samples_to_le(samples).len() == 2 * samples.len(),
        samples_from_le(samples_to_le(samples)) == samples,
{
    let bytes = samples_to_le(samples);
    let back = samples_from_le(bytes);
    assert(back.len() == samples.len());
    assert forall|i: int| 0 <= i < samples.len() implies back[i] == samples[i] by {
        assert(bytes[2 * i] == le_bytes(samples[(2 * i) / 2])[(2 * i) % 2]);
        assert(bytes[2 * i + 1] == le_bytes(samples[(2 * i + 1) / 2])[(2 * i + 1) % 2]);
        assert((2 * i) / 2 == i && (2 * i) % 2 == 0);
        assert((2 * i + 1) / 2 == i && (2 * i + 1) % 2 == 1);
    }
    assert(back =~= samples);
}

/// Lays samples out as bytes, two for each, low byte first.
pub fn encode_samples(samples: &[i16]) -> (r: Vec<u8>)
    ensures
        r@ == samples_to_le(samples@),
        r@.len() == 2 * samples@.len(),
        samples_from_le(r@) == samples@,
{
    let mut bytes: Vec<u8> = Vec::new();
    let mut i: usize = 0;
    while i < samples.len()
        invariant
            i <= samples@.len(),
            bytes@ == samples_to_le(samples@.take(i as int)),
        decreases samples@.len() - i,
    {
        let wide: i32 = samples[i] as i32;
        let bits: i32 = if wide < 0 {
            wide + 0x1_0000
        } else {
            wide
        };
        let low: u8 = (bits % 256) as u8;
        let high: u8 = (bits / 256) as u8;
        let ghost before = bytes@;
        bytes.push(low);
        bytes.push(high);
        proof {
            let done = samples@.take(i as int);
            let next = samples@.take(i + 1);
            assert(bits == sample_bits(samples@[i as int]));
            assert(bytes@.len() == 2 * next.len());
            assert forall|j: int| 0 <= j < bytes@.len() implies bytes@[j] == samples_to_le(
                next,
            )[j] by {
                if j < 2 * i {
                    assert(bytes@[j] == before[j]);
                    assert(done[j / 2] == next[j / 2]);
                } else {
                    assert(j / 2 == i);
                    assert(next[j / 2] == samples@[i as int]);
                }
            }
            assert(bytes@ =~= samples_to_le(next));
        }
        i = i + 1;
    }
    proof {
        assert(samples@.take(i as int) == samples@);
        lemma_samples_round_trip(samples@);
    }
    bytes
}

/// Reads samples from bytes, two for each, low byte first; a last byte
/// without a partner is left out.
pub fn decode_samples(bytes: &[u8]) -> (r: Vec<i16>)
    ensures
        r@ == samples_from_le(bytes@),
{
    let mut samples: Vec<i16> = Vec::new();
    let count = bytes.len() / 2;
    let mut i: usize = 0;
    while i < count
        invariant
            i <= count,
            count == bytes@.len() / 2,
            bytes@.len() <= usize::MAX,
            samples@.len() == i,
            forall|j: int|
                0 <= j < i ==> samples@[j] == sample_from_le(bytes@[2 * j], bytes@[2 * j + 1]),
        decreases count - i,
    {
        assert(2 * i + 1 < bytes@.len());
        let low: i32 = bytes[2 * i] as i32;
        let high: i32 = bytes[2 * i + 1] as i32;
        let bits: i32 = low + 256 * high;
        let sample: i16 = if bits >= 0x8000 {
            (bits - 0x1_0000) as i16
        } else {
            bits as i16
        };
        samples.push(sample);
        i = i + 1;
    }
    assert(samples@ =~= samples_from_le(bytes@));
    samples
}

} // verus!
