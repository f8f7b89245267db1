//! What holds from end to end: a receptor that is configured like an emitter
//! admits what that emitter writes, and queues the samples that were
//! captured.

use crate::emitter::{chunk, chunk_count, lemma_groups_hold_whole_frames, packet_of};
use crate::pcm::{lemma_pcm_round_trip, pcm_samples};
use crate::protocol::{
    padded_name, strip_nul, Header, HEADER_SIZE, MAX_NUM_SAMPLES, MAX_PACKET_SIZE,
    STREAM_NAME_SIZE,
};
use crate::receptor::{datagram_rejection, source_rejection, IpAddress};
use vstd::prelude::*;
use vstd::utf8::encode_utf8;

verus! {

/// A name without NUL bytes that fits the name field reads back from the
/// field as it was written.
pub proof fn lemma_name_round_trip(name: Seq<u8>)
    requires
        name.len() <= STREAM_NAME_SIZE,
        forall|i: int| 0 <= i < name.len() ==> name[i] != 0,
    ensures
        strip_nul(padded_name(name)) == name,
{
    let pred = |b: u8| b != 0;
    let padding = Seq::new((STREAM_NAME_SIZE - name.len()) as nat, |i: int| 0u8);
    assert(padded_name(name) =~= name + padding);
    Seq::filter_distributes_over_add(name, padding, pred);
    lemma_filter_keeps_all(name);
    padding.lemma_all_neg_filter_empty(pred);
    assert(name + Seq::<u8>::empty() =~= name);
}

/// Bytes that are all other than NUL stay as they are when NUL bytes are
/// dropped.
proof fn lemma_filter_keeps_all(bytes: Seq<u8>)
    requires
        forall|i: int| 0 <= i < bytes.len() ==> bytes[i] != 0,
    ensures
        strip_nul(bytes) == bytes,
    decreases bytes.len(),
{
    reveal(Seq::filter);
    if bytes.len() > 0 {
        lemma_filter_keeps_all(bytes.drop_last());
        assert(bytes.drop_last().push(bytes.last()) =~= bytes);
    }
}

/// Every packet that an emitter writes from a block of whole frames is
/// admitted by a receptor of the same stream name and channel count, from
/// whatever source where no peer is configured and from the peer where one
/// is; and its payload reads as the group of samples it was written from.
pub proof fn lemma_written_packets_are_admitted(
    input: Seq<i16>,
    template: Header,
    stream_name: Seq<char>,
    channels: u8,
    first_frame: u32,
    i: nat,
    peer: Option<IpAddress>,
    src: IpAddress,
)
    requires
        (Header { num_channels: 2, ..template }).is_template_of(stream_name),
        template.num_channels == channels,
        channels > 0,
        encode_utf8(stream_name).len() <= STREAM_NAME_SIZE,
        forall|k: int| 0 <= k < encode_utf8(stream_name).len() ==> encode_utf8(stream_name)[k] != 0,
        input.len() % channels as nat == 0,
        MAX_NUM_SAMPLES as nat % channels as nat == 0,
        i < chunk_count(input.len(), MAX_NUM_SAMPLES as nat),
        source_rejection(peer, src).is_none(),
    ensures
        ({
            let (header, data) = packet_of(input, template, first_frame, i);
            let datagram = header.wire() + data;
            &&& header.encodable()
            &&& datagram.len() <= MAX_PACKET_SIZE
            &&& datagram_rejection(stream_name, channels, peer, src, datagram).is_none()
            &&& pcm_samples(datagram.skip(HEADER_SIZE as int)) == chunk(
                input,
                MAX_NUM_SAMPLES as nat,
                i,
            )
        }),
{
    let (header, data) = packet_of(input, template, first_frame, i);
    let group = chunk(input, MAX_NUM_SAMPLES as nat, i);
    lemma_groups_hold_whole_frames(input, template, first_frame, i);
    crate::emitter::lemma_chunk_bounds(input.len(), MAX_NUM_SAMPLES as nat, i);
    lemma_pcm_round_trip(group);
    lemma_name_round_trip(encode_utf8(stream_name));
    let datagram = header.wire() + data;
    crate::protocol::lemma_header_round_trip(header);
    assert(datagram.subrange(0, 4) =~= header.wire().subrange(0, 4));
    assert(datagram.subrange(8, 24) =~= header.wire().subrange(8, 24));
    assert(datagram.subrange(24, 28) =~= header.wire().subrange(24, 28));
    assert(header.wire().subrange(0, 4) =~= crate::protocol::magic());
    assert(header.wire().subrange(8, 24) =~= header.stream_name@);
    assert(header.wire().subrange(24, 28) =~= crate::endian::le_bytes_u32(header.frame_number));
    crate::endian::lemma_le_u32_round_trip(header.frame_number);
    crate::protocol::lemma_decoded_header(datagram, header);
    assert(datagram.skip(HEADER_SIZE as int) =~= data);
}

} // verus!
