//! Linear PCM: 16-bit signed samples, little-endian on the wire, and the
//! device sample formats that convert to and from them without floating
//! point.

use crate::endian::{
    i16_to_le_bytes, le_bytes_i16, le_i16, lemma_le_bytes_i16_round_trip, lemma_le_i16_round_trip,
    read_i16_le,
};
use dasp_sample::Sample;
use vstd::prelude::*;
use vstd::slice::slice_subrange;

verus! {

/// The samples that a payload holds: one per pair of bytes, in order. A
/// trailing odd byte holds no sample.
pub open spec fn pcm_samples(data: Seq<u8>) -> Seq<i16> {
    Seq::new(data.len() / 2, |i: int| le_i16(data[2 * i], data[2 * i + 1]) as i16)
}

/// The payload that holds `samples`: two bytes per sample, in order.
pub open spec fn pcm_bytes(samples: Seq<i16>) -> Seq<u8> {
    Seq::new(2 * samples.len(), |i: int| le_bytes_i16(samples[i / 2])[i % 2])
}

/// A payload written from samples reads back as those samples.
pub proof fn lemma_pcm_round_trip(samples: Seq<i16>)
    ensures
        pcm_bytes(samples).len() == 2 * samples.len(),
        pcm_samples(pcm_bytes(samples)) == samples,
{
    let data = pcm_bytes(samples);
    assert forall|i: int| 0 <= i < samples.len() implies pcm_samples(data)[i] == samples[i] by {
        lemma_le_i16_round_trip(samples[i]);
        assert((2 * i) / 2 == i && (2 * i) % 2 == 0);
        assert((2 * i + 1) / 2 == i && (2 * i + 1) % 2 == 1);
    }
    assert(pcm_samples(data) =~= samples);
}

/// A payload of even length, read as samples, writes back as itself.
pub proof fn lemma_pcm_bytes_round_trip(data: Seq<u8>)
    requires
        data.len() % 2 == 0,
    ensures
        pcm_bytes(pcm_samples(data)) == data,
{
    let samples = pcm_samples(data);
    assert forall|k: int| 0 <= k < data.len() implies pcm_bytes(samples)[k] == data[k] by {
        let i = k / 2;
        lemma_le_bytes_i16_round_trip(data[2 * i], data[2 * i + 1]);
        assert(le_bytes_i16(samples[i]) == seq![data[2 * i], data[2 * i + 1]]);
    }
    assert(pcm_bytes(samples) =~= data);
}

/// Reads a payload as samples.
pub fn decode_samples(data: &[u8]) -> (samples: Vec<i16>)
    ensures
        samples@ == pcm_samples(data@),
{
    let count = data.len() / 2;
    let mut samples: Vec<i16> = Vec::with_capacity(count);
    let mut i: usize = 0;
    while i < count
        invariant
            i <= count == data@.len() / 2,
            2 * count <= data@.len() <= usize::MAX,
            samples@.len() == i,
            forall|k: int| 0 <= k < i ==> samples@[k] == pcm_samples(data@)[k],
        decreases count - i,
    {
        let pair = slice_subrange(data, 2 * i, 2 * i + 2);
        let sample = read_i16_le(pair);
        proof {
            lemma_le_bytes_i16_round_trip(pair@[0], pair@[1]);
        }
        samples.push(sample);
        i = i + 1;
    }
    assert(samples@ =~= pcm_samples(data@));
    samples
}

/// Writes samples as a payload.
pub fn encode_samples(samples: &[i16]) -> (data: Vec<u8>)
    ensures
        data@ == pcm_bytes(samples@),
{
    let mut data: Vec<u8> = Vec::new();
    let mut i: usize = 0;
    while i < samples.len()
        invariant
            i <= samples@.len(),
            data@.len() == 2 * i,
            forall|k: int| 0 <= k < 2 * i ==> data@[k] == pcm_bytes(samples@)[k],
        decreases samples@.len() - i,
    {
        let pair = i16_to_le_bytes(samples[i]);
        data.push(pair[0]);
        data.push(pair[1]);
        proof {
            assert((2 * i) / 2 == i && (2 * i) % 2 == 0);
            assert((2 * i + 1) / 2 == i && (2 * i + 1) % 2 == 1);
        }
        i = i + 1;
    }
    assert(data@ =~= pcm_bytes(samples@));
    data
}

/// The signed sample that stands for an unsigned 16-bit device sample: the
/// same level, measured from the middle of the range.
pub open spec fn signed_level(sample: u16) -> int {
    sample - 32768
}

/// The unsigned 16-bit device sample that stands for a signed sample.
pub open spec fn unsigned_level(sample: i16) -> int {
    sample + 32768
}

/// `dasp_sample::Sample::to_sample`, from `u16` to `i16`: the sample moved
/// down by half the range.
#[verifier::external_body]
pub(crate) fn u16_to_i16(sample: u16) -> (converted: i16)
    ensures
        converted == signed_level(sample),
{
    sample.to_sample::<i16>()
}

/// `dasp_sample::Sample::to_sample`, from `i16` to `u16`: the sample moved up
/// by half the range.
#[verifier::external_body]
pub(crate) fn i16_to_u16(sample: i16) -> (converted: u16)
    ensures
        converted == unsigned_level(sample),
{
    sample.to_sample::<u16>()
}

/// Converts a captured block of unsigned 16-bit samples to PCM.
pub fn pcm_from_u16(input: &[u16]) -> (samples: Vec<i16>)
    ensures
        samples@.len() == input@.len(),
        forall|i: int| 0 <= i < input@.len() ==> samples@[i] == signed_level(input@[i]),
{
    let mut samples: Vec<i16> = Vec::with_capacity(input.len());
    let mut i: usize = 0;
    while i < input.len()
        invariant
            i <= input@.len(),
            samples@.len() == i,
            forall|k: int| 0 <= k < i ==> samples@[k] == signed_level(input@[k]),
        decreases input@.len() - i,
    {
        samples.push(u16_to_i16(input[i]));
        i = i + 1;
    }
    samples
}

/// Converts a block of PCM to unsigned 16-bit samples for playback.
pub fn pcm_to_u16(input: &[i16]) -> (samples: Vec<u16>)
    ensures
        samples@.len() == input@.len(),
        forall|i: int| 0 <= i < input@.len() ==> samples@[i] == unsigned_level(input@[i]),
{
    let mut samples: Vec<u16> = Vec::with_capacity(input.len());
    let mut i: usize = 0;
    while i < input.len()
        invariant
            i <= input@.len(),
            samples@.len() == i,
            forall|k: int| 0 <= k < i ==> samples@[k] == unsigned_level(input@[k]),
        decreases input@.len() - i,
    {
        samples.push(i16_to_u16(input[i]));
        i = i + 1;
    }
    samples
}

} // verus!
