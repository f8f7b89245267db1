//! The emitter's frame chunker: a captured block of samples becomes a run of
//! packets, none larger than the protocol allows, numbered one after the
//! other.

use crate::args::EmitterArgs;
use crate::pcm::{encode_samples, pcm_bytes};
use crate::protocol::{Header, Packet, MAX_NUM_SAMPLES};
use crate::supervisor::{decide, SessionAction, SessionEvent, Supervisor};
use crate::text::{is_default, DEFAULT_DEVICE};
use vstd::prelude::*;
use vstd::slice::slice_subrange;

verus! {

/// How many groups of at most `max` samples a block of `total` samples
/// makes: `total / max`, rounded up.
pub open spec fn chunk_count(total: nat, max: nat) -> nat
    recommends
        max > 0,
{
    ((total + max - 1) / max as int) as nat
}

/// The length of group `i`: every group holds `max` samples but the last,
/// which holds what is left.
pub open spec fn chunk_len(total: nat, max: nat, i: nat) -> nat
    recommends
        max > 0,
        i < chunk_count(total, max),
{
    if (i + 1) * max <= total {
        max
    } else {
        (total - i * max) as nat
    }
}

/// Group `i` of `input`.
pub open spec fn chunk(input: Seq<i16>, max: nat, i: nat) -> Seq<i16>
    recommends
        max > 0,
        i < chunk_count(input.len(), max),
{
    input.subrange((i * max) as int, (i * max + chunk_len(input.len(), max, i)) as int)
}

/// All groups of `input`, in order.
pub open spec fn chunks(input: Seq<i16>, max: nat) -> Seq<Seq<i16>>
    recommends
        max > 0,
{
    Seq::new(chunk_count(input.len(), max), |i: int| chunk(input, max, i as nat))
}

/// The frame number `steps` packets after `start`: the counter wraps from
/// the largest 32-bit value to zero.
pub open spec fn frame_number_after(start: u32, steps: nat) -> u32 {
    ((start + steps) % 0x1_0000_0000) as u32
}

/// Group `i` starts inside the block exactly when `i` is less than the number
/// of groups; every group is within the block and holds between one and
/// `max` samples.
pub proof fn lemma_chunk_bounds(total: nat, max: nat, i: nat)
    requires
        max > 0,
    ensures
        i < chunk_count(total, max) <==> i * max < total,
        i < chunk_count(total, max) ==> 1 <= chunk_len(total, max, i) <= max && i * max
            + chunk_len(total, max, i) <= total,
        i + 1 == chunk_count(total, max) ==> i * max + chunk_len(total, max, i) == total,
        i + 1 < chunk_count(total, max) ==> chunk_len(total, max, i) == max,
{
    let c = chunk_count(total, max);
    assert(c * max >= total && (c - 1) * max < total + 0 && c >= 0) by (nonlinear_arith)
        requires
            max > 0,
            c == (total + max - 1) / max as int,
    ;
    if i < c {
        assert(i * max <= (c - 1) * max) by (nonlinear_arith)
            requires
                i <= c - 1,
                max > 0,
        ;
    } else {
        assert(i * max >= c * max) by (nonlinear_arith)
            requires
                i >= c,
                max > 0,
        ;
    }
    assert((i + 1) * max == i * max + max) by (nonlinear_arith);
    if i + 1 < c {
        assert((i + 1) * max <= (c - 1) * max) by (nonlinear_arith)
            requires
                i + 1 <= c - 1,
                max > 0,
        ;
    }
    if i + 1 == c {
        assert((i + 1) * max == c * max) by (nonlinear_arith)
            requires
                i + 1 == c,
        ;
    }
}

/// A block splits into `total / max` groups, rounded up; no group holds more
/// than `max` samples; and the groups, put end to end in order, are the
/// block.
pub proof fn lemma_chunks_reassemble(input: Seq<i16>, max: nat)
    requires
        max > 0,
    ensures
        chunks(input, max).len() == chunk_count(input.len(), max),
        chunk_count(input.len(), max) * max >= input.len(),
        input.len() > 0 ==> (chunk_count(input.len(), max) - 1) * max < input.len(),
        forall|i: int|
            0 <= i < chunks(input, max).len() ==> 1 <= (#[trigger] chunks(input, max)[i]).len()
                <= max,
        chunks(input, max).flatten() == input,
{
    let total = input.len();
    let count = chunk_count(total, max);
    let all = chunks(input, max);
    assert(count * max >= total && (count - 1) * max < total + 0) by (nonlinear_arith)
        requires
            max > 0,
            count == (total + max - 1) / max as int,
    ;
    assert forall|i: int| 0 <= i < all.len() implies 1 <= (#[trigger] all[i]).len() <= max by {
        lemma_chunk_bounds(total, max, i as nat);
    }
    lemma_chunks_prefix(input, max, count);
    if count == 0 {
        lemma_chunk_bounds(total, max, 0);
        assert(0 * max == 0) by (nonlinear_arith);
        assert(input =~= Seq::<i16>::empty());
    } else {
        lemma_chunk_bounds(total, max, (count - 1) as nat);
        assert(input.take(total as int) =~= input);
    }
    assert(all.take(count as int) =~= all);
}

/// The first `n` groups, put end to end, are the block up to where group `n`
/// starts.
proof fn lemma_chunks_prefix(input: Seq<i16>, max: nat, n: nat)
    requires
        max > 0,
        n <= chunk_count(input.len(), max),
    ensures
        n * max >= 0,
        n < chunk_count(input.len(), max) ==> chunks(input, max).take(n as int).flatten()
            == input.take((n * max) as int),
        n == chunk_count(input.len(), max) ==> chunks(input, max).take(n as int).flatten()
            == input,
    decreases n,
{
    let total = input.len();
    let all = chunks(input, max);
    assert(n * max >= 0) by (nonlinear_arith)
        requires
            n >= 0,
            max > 0,
    ;
    if n == 0 {
        assert(0 * max == 0) by (nonlinear_arith);
        assert(all.take(0) =~= Seq::<Seq<i16>>::empty());
        assert(all.take(0).flatten() =~= Seq::<i16>::empty());
        if chunk_count(total, max) == 0 {
            lemma_chunk_bounds(total, max, 0);
            assert(input =~= Seq::<i16>::empty());
        } else {
            assert(input.take(0) =~= Seq::<i16>::empty());
        }
    } else {
        let m = (n - 1) as nat;
        lemma_chunks_prefix(input, max, m);
        lemma_chunk_bounds(total, max, m);
        lemma_chunk_bounds(total, max, n);
        let before = all.take(m as int);
        let last = all[m as int];
        assert(all.take(n as int) =~= before.push(last));
        assert(before.push(last) =~= before + seq![last]);
        vstd::seq_lib::lemma_flatten_concat(before, seq![last]);
        seq![last].lemma_flatten_one_element();
        assert(all.take(n as int).flatten() =~= input.take((m * max) as int) + last);
        assert((m + 1) * max == m * max + max) by (nonlinear_arith);
        if n < chunk_count(total, max) {
            assert(input.take((m * max) as int) + last =~= input.take((n * max) as int));
        } else {
            assert(input.take((m * max) as int) + last =~= input);
        }
    }
}

/// Each packet's frame number is the one before it plus one, and the number
/// after the largest is zero; numbering `more` packets from where `steps`
/// packets ended is numbering `steps + more` packets from the start.
pub proof fn lemma_frame_numbers_follow(start: u32, steps: nat, more: nat)
    ensures
        frame_number_after(start, 0) == start,
        frame_number_after(start, steps) < u32::MAX ==> frame_number_after(start, steps + 1)
            == frame_number_after(start, steps) + 1,
        frame_number_after(start, steps) == u32::MAX ==> frame_number_after(start, steps + 1)
            == 0,
        frame_number_after(frame_number_after(start, steps), more) == frame_number_after(
            start,
            steps + more,
        ),
{
}

/// Splits a block into groups of at most `max` samples.
pub fn split_block(input: &[i16], max: usize) -> (groups: Vec<Vec<i16>>)
    requires
        max > 0,
    ensures
        groups@.len() == chunk_count(input@.len(), max as nat),
        forall|i: int|
            0 <= i < groups@.len() ==> (#[trigger] groups@[i])@ == chunk(
                input@,
                max as nat,
                i as nat,
            ),
{
    let total = input.len();
    let mut groups: Vec<Vec<i16>> = Vec::new();
    let mut start: usize = 0;
    proof {
        assert(0 * max == 0) by (nonlinear_arith);
        lemma_chunk_bounds(total as nat, max as nat, 0);
    }
    while start < total
        invariant
            max > 0,
            total == input@.len(),
            start <= total,
            groups@.len() <= chunk_count(total as nat, max as nat),
            groups@.len() < chunk_count(total as nat, max as nat) ==> start == groups@.len() * max,
            groups@.len() == chunk_count(total as nat, max as nat) ==> start == total,
            forall|i: int|
                0 <= i < groups@.len() ==> (#[trigger] groups@[i])@ == chunk(
                    input@,
                    max as nat,
                    i as nat,
                ),
        decreases total - start,
    {
        let ghost n = groups@.len();
        proof {
            lemma_chunk_bounds(total as nat, max as nat, n);
            lemma_chunk_bounds(total as nat, max as nat, n + 1);
            assert((n + 1) * max == n * max + max) by (nonlinear_arith);
        }
        let left = total - start;
        let len = if left < max {
            left
        } else {
            max
        };
        let group = vstd::slice::slice_to_vec(slice_subrange(input, start, start + len));
        assert(group@ =~= chunk(input@, max as nat, n));
        groups.push(group);
        start = start + len;
    }
    proof {
        lemma_chunk_bounds(total as nat, max as nat, groups@.len());
    }
    groups
}

/// The header of a group of `group_len` samples: the template with the
/// group's samples per channel and its frame number.
pub open spec fn group_header(template: Header, group_len: nat, frame_number: u32) -> Header
    recommends
        group_len <= MAX_NUM_SAMPLES,
{
    Header { num_samples: samples_per_channel(group_len, template.num_channels), frame_number, ..template }
}

/// How many whole frames a group of `group_len` interleaved samples holds;
/// none where there is no channel.
pub open spec fn samples_per_channel(group_len: nat, channels: u16) -> u16
    recommends
        group_len <= MAX_NUM_SAMPLES,
{
    if channels == 0 {
        0
    } else {
        (group_len / channels as nat) as u16
    }
}

/// Packet `i` of a block that is sent when the frame counter stands at
/// `first_frame`.
pub open spec fn packet_of(input: Seq<i16>, template: Header, first_frame: u32, i: nat) -> (
    Header,
    Seq<u8>,
)
    recommends
        i < chunk_count(input.len(), MAX_NUM_SAMPLES as nat),
{
    (
        group_header(
            template,
            chunk_len(input.len(), MAX_NUM_SAMPLES as nat, i),
            frame_number_after(first_frame, i),
        ),
        pcm_bytes(chunk(input, MAX_NUM_SAMPLES as nat, i)),
    )
}

/// Whether a block of `block_len` samples is made of whole frames that the
/// protocol's groups do not cut: the template's fields other than the
/// sample count fit the wire, and its channel count divides both the block
/// and the protocol's maximum.
pub open spec fn holds_whole_frames(template: Header, block_len: nat) -> bool {
    &&& (Header { num_samples: 1, ..template }).encodable()
    &&& block_len % template.num_channels as nat == 0
    &&& MAX_NUM_SAMPLES as nat % template.num_channels as nat == 0
}

/// Whether a packet carries whole frames and can go on the wire: its
/// payload holds two bytes for each sample of each channel that its header
/// counts.
pub open spec fn is_whole(packet: Packet) -> bool {
    &&& packet.encodable()
    &&& packet.data@.len() == packet.header.num_samples * packet.header.num_channels * 2
}

/// Turns a captured block into packets: one per group of at most
/// `MAX_NUM_SAMPLES` samples, each with the template's fields, the group's
/// samples per channel and the next frame number. The frame counter moves on
/// by the number of packets, wrapping at the 32-bit boundary. A block of
/// whole frames that the groups do not cut gives packets of whole frames,
/// each of which can go on the wire.
pub fn write_data(input: &[i16], header: &Header, frame_count: &mut u32) -> (packets: Vec<Packet>)
    ensures
        packets@.len() == chunk_count(input@.len(), MAX_NUM_SAMPLES as nat),
        forall|i: int|
            0 <= i < packets@.len() ==> ((#[trigger] packets@[i]).header, packets@[i].data@)
                == packet_of(input@, *header, *old(frame_count), i as nat),
        *final(frame_count) == frame_number_after(*old(frame_count), packets@.len()),
        holds_whole_frames(*header, input@.len()) ==> forall|i: int|
            0 <= i < packets@.len() ==> is_whole(#[trigger] packets@[i]),
{
    let groups = split_block(input, MAX_NUM_SAMPLES);
    let mut packets: Vec<Packet> = Vec::new();
    let ghost first_frame = *frame_count;
    let mut i: usize = 0;
    while i < groups.len()
        invariant
            i <= groups@.len() == chunk_count(input@.len(), MAX_NUM_SAMPLES as nat),
            forall|k: int|
                0 <= k < groups@.len() ==> (#[trigger] groups@[k])@ == chunk(
                    input@,
                    MAX_NUM_SAMPLES as nat,
                    k as nat,
                ),
            packets@.len() == i,
            forall|k: int|
                0 <= k < i ==> ((#[trigger] packets@[k]).header, packets@[k].data@) == packet_of(
                    input@,
                    *header,
                    first_frame,
                    k as nat,
                ),
            *frame_count == frame_number_after(first_frame, i as nat),
        decreases groups@.len() - i,
    {
        let group = &groups[i];
        proof {
            lemma_chunk_bounds(input@.len(), MAX_NUM_SAMPLES as nat, i as nat);
        }
        let mut group_header = *header;
        group_header.num_samples = if header.num_channels == 0 {
            0
        } else {
            (group.len() / header.num_channels as usize) as u16
        };
        group_header.frame_number = *frame_count;
        let data = encode_samples(group.as_slice());
        packets.push(Packet { header: group_header, data });
        *frame_count = frame_count.wrapping_add(1);
        i = i + 1;
    }
    proof {
        if holds_whole_frames(*header, input@.len()) {
            assert forall|k: int| 0 <= k < packets@.len() implies is_whole(
                #[trigger] packets@[k],
            ) by {
                lemma_groups_hold_whole_frames(input@, *header, first_frame, k as nat);
                lemma_chunk_bounds(input@.len(), MAX_NUM_SAMPLES as nat, k as nat);
            }
        }
    }
    packets
}

/// Where the block and the protocol's maximum both hold whole frames, so does
/// every group: its packet carries at least one sample per channel, and a
/// payload of two bytes for each sample of each channel.
pub proof fn lemma_groups_hold_whole_frames(input: Seq<i16>, template: Header, first: u32, i: nat)
    requires
        template.num_channels > 0,
        input.len() % template.num_channels as nat == 0,
        MAX_NUM_SAMPLES as nat % template.num_channels as nat == 0,
        i < chunk_count(input.len(), MAX_NUM_SAMPLES as nat),
    ensures
        1 <= packet_of(input, template, first, i).0.num_samples <= MAX_NUM_SAMPLES,
        packet_of(input, template, first, i).1.len() == packet_of(
            input,
            template,
            first,
            i,
        ).0.num_samples * template.num_channels * 2,
{
    let channels = template.num_channels as nat;
    let max = MAX_NUM_SAMPLES as nat;
    let len = chunk_len(input.len(), max, i);
    lemma_chunk_bounds(input.len(), max, i);
    assert(len % channels == 0) by {
        if len != max {
            let c = channels as int;
            let q = max as int / c;
            let t = input.len() as int / c;
            vstd::arithmetic::div_mod::lemma_fundamental_div_mod(max as int, c);
            vstd::arithmetic::div_mod::lemma_fundamental_div_mod(input.len() as int, c);
            assert(len == (t - i * q) * c) by (nonlinear_arith)
                requires
                    len == input.len() - i * max,
                    max == c * q,
                    input.len() == c * t,
            ;
            vstd::arithmetic::div_mod::lemma_mod_multiples_basic(t - i * q, c);
        }
    }
    assert(len / channels >= 1 && (len / channels) * channels == len) by (nonlinear_arith)
        requires
            len % channels == 0,
            len >= 1,
            channels > 0,
    ;
    assert(len / channels <= len) by (nonlinear_arith)
        requires
            channels > 0,
            len >= 0,
    ;
}


/// Takes one report on a sending session and decides what to do next. The
/// session follows the default device where it is configured for the device
/// `default`. The capture callback sends on its own while the supervisor
/// sleeps.
pub fn emitter(args: &EmitterArgs, supervisor: &mut Supervisor, event: SessionEvent) -> (action:
    SessionAction)
    ensures
        (*final(supervisor), action) == decide(
            args.device@ == DEFAULT_DEVICE@,
            *old(supervisor),
            event,
        ),
{
    let follows_default = is_default(args.device.as_str());
    supervisor.step(follows_default, event)
}

} // verus!
