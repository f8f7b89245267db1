//! The receptor's admission filter: which datagrams are packets of the
//! configured stream, and what they add to the sample queue.

use crate::args::ReceptorArgs;
use crate::device::StreamConfig;
use crate::pcm::{decode_samples, pcm_samples};
use crate::protocol::{
    decode_error, decoded_header, strip_nul, Codec, DecodeError, Header, Packet, SubProtocol,
    HEADER_SIZE,
};
use crate::ring_buffer::{accepted_count, silence, RingBuffer};
use crate::supervisor::{decide, SessionAction, SessionEvent, Supervisor};
use crate::text::{is_default, DEFAULT_DEVICE};
use vstd::prelude::*;
use vstd::utf8::encode_utf8;

verus! {

/// A network address, as the integer that its bytes spell in network order.
#[derive(Clone, Copy, Debug, PartialEq, Eq, Structural)]
pub enum IpAddress {
    V4(u32),
    V6(u128),
}

/// Why a datagram is dropped.
#[derive(Clone, Copy, Debug, PartialEq, Eq, Structural)]
pub enum Rejection {
    /// It is not a packet of the protocol.
    Malformed(DecodeError),
    /// It does not come from the configured peer.
    WrongSource,
    /// It belongs to another stream.
    WrongStreamName,
    /// It has another number of channels than configured.
    WrongChannels,
    /// It does not carry audio.
    WrongSubProtocol,
    /// Its audio is not linear PCM.
    WrongCodec,
}

/// Why a datagram from `src` is dropped for its source, or nothing when the
/// source passes: with a peer configured, only that peer passes.
pub open spec fn source_rejection(peer: Option<IpAddress>, src: IpAddress) -> Option<Rejection> {
    match peer {
        Some(expected) if expected != src => Some(Rejection::WrongSource),
        _ => None,
    }
}

/// Why a header is dropped by a session for the given stream name and
/// channel count, or nothing when it passes. The checks are made in this
/// order: stream name, channel count, sub-protocol, codec.
pub open spec fn audio_rejection(stream_name: Seq<char>, channels: u8, header: Header) -> Option<
    Rejection,
> {
    if strip_nul(header.stream_name@) != encode_utf8(stream_name) {
        Some(Rejection::WrongStreamName)
    } else if header.num_channels != channels {
        Some(Rejection::WrongChannels)
    } else if header.sub_protocol != SubProtocol::Audio {
        Some(Rejection::WrongSubProtocol)
    } else if header.codec != Codec::PCM {
        Some(Rejection::WrongCodec)
    } else {
        None
    }
}

/// Why a datagram is dropped, or nothing when it is admitted. The checks are
/// made in this order: decoding, source, then those on the header.
pub open spec fn datagram_rejection(
    stream_name: Seq<char>,
    channels: u8,
    peer: Option<IpAddress>,
    src: IpAddress,
    datagram: Seq<u8>,
) -> Option<Rejection> {
    match decode_error(datagram) {
        Some(error) => Some(Rejection::Malformed(error)),
        None => match source_rejection(peer, src) {
            Some(rejection) => Some(rejection),
            None => audio_rejection(stream_name, channels, decoded_header(datagram)),
        },
    }
}

/// A header is admitted exactly when its stream name, its channel count, its
/// sub-protocol and its codec are the session's; with the other three right,
/// each one of them that is wrong is a rejection on its own account.
pub proof fn lemma_admission_is_exact(stream_name: Seq<char>, channels: u8, header: Header)
    ensures
        ({
            let name_fits = strip_nul(header.stream_name@) == encode_utf8(stream_name);
            let channels_fit = header.num_channels == channels;
            let is_audio = header.sub_protocol == SubProtocol::Audio;
            let is_pcm = header.codec == Codec::PCM;
            let verdict = audio_rejection(stream_name, channels, header);
            &&& verdict.is_none() <==> name_fits && channels_fit && is_audio && is_pcm
            &&& !name_fits && channels_fit && is_audio && is_pcm ==> verdict == Some(
                Rejection::WrongStreamName,
            )
            &&& name_fits && !channels_fit && is_audio && is_pcm ==> verdict == Some(
                Rejection::WrongChannels,
            )
            &&& name_fits && channels_fit && !is_audio && is_pcm ==> verdict == Some(
                Rejection::WrongSubProtocol,
            )
            &&& name_fits && channels_fit && is_audio && !is_pcm ==> verdict == Some(
                Rejection::WrongCodec,
            )
        }),
{
}

/// The queue after a datagram from `src` was processed: an admitted
/// packet's samples are behind those queued before, as far as there was
/// room; a dropped datagram leaves the queue as it was.
pub open spec fn queue_after(
    queue: Seq<i16>,
    capacity: nat,
    stream_name: Seq<char>,
    channels: u8,
    peer: Option<IpAddress>,
    src: IpAddress,
    datagram: Seq<u8>,
) -> Seq<i16> {
    if datagram_rejection(stream_name, channels, peer, src, datagram).is_none() {
        let samples = pcm_samples(datagram.skip(HEADER_SIZE as int));
        queue + samples.take(accepted_count(capacity, queue.len(), samples.len()) as int)
    } else {
        queue
    }
}

/// A dropped datagram has no effect on what comes after it: the next
/// datagram is processed as if the dropped one had never arrived.
pub proof fn lemma_dropped_datagram_leaves_no_trace(
    queue: Seq<i16>,
    capacity: nat,
    stream_name: Seq<char>,
    channels: u8,
    peer: Option<IpAddress>,
    dropped_src: IpAddress,
    dropped: Seq<u8>,
    next_src: IpAddress,
    next: Seq<u8>,
)
    requires
        datagram_rejection(stream_name, channels, peer, dropped_src, dropped).is_some(),
    ensures
        queue_after(
            queue_after(queue, capacity, stream_name, channels, peer, dropped_src, dropped),
            capacity,
            stream_name,
            channels,
            peer,
            next_src,
            next,
        ) == queue_after(queue, capacity, stream_name, channels, peer, next_src, next),
{
}

/// Checks where a datagram comes from.
pub fn check_src(peer: &Option<IpAddress>, src: &IpAddress) -> (checked: Result<(), Rejection>)
    ensures
        checked == match source_rejection(*peer, *src) {
            Some(rejection) => Err::<(), Rejection>(rejection),
            None => Ok(()),
        },
{
    match peer {
        Some(expected) => {
            if *expected != *src {
                return Err(Rejection::WrongSource);
            }
            Ok(())
        },
        None => Ok(()),
    }
}

/// Checks that a packet is audio of the configured stream.
pub fn check_audio_pkt(args: &ReceptorArgs, pkt: &Packet) -> (checked: Result<(), Rejection>)
    ensures
        checked == match audio_rejection(args.stream_name@, args.channels, pkt.header) {
            Some(rejection) => Err::<(), Rejection>(rejection),
            None => Ok(()),
        },
{
    let header = pkt.header();
    if !header.has_stream_name(args.stream_name.as_str()) {
        return Err(Rejection::WrongStreamName);
    }
    if header.num_channels != args.channels as u16 {
        return Err(Rejection::WrongChannels);
    }
    if header.sub_protocol != SubProtocol::Audio {
        return Err(Rejection::WrongSubProtocol);
    }
    if header.codec != Codec::PCM {
        return Err(Rejection::WrongCodec);
    }
    Ok(())
}

/// Decodes and checks one datagram that arrived from `src`.
pub fn receive_packet(
    args: &ReceptorArgs,
    peer: &Option<IpAddress>,
    src: &IpAddress,
    datagram: &[u8],
) -> (received: Result<Packet, Rejection>)
    ensures
        match received {
            Ok(packet) => {
                &&& datagram_rejection(args.stream_name@, args.channels, *peer, *src, datagram@)
                    .is_none()
                &&& packet.header == decoded_header(datagram@)
                &&& packet.data@ == datagram@.skip(HEADER_SIZE as int)
            },
            Err(rejection) => datagram_rejection(
                args.stream_name@,
                args.channels,
                *peer,
                *src,
                datagram@,
            ) == Some(rejection),
        },
{
    let packet = match Packet::decode(datagram) {
        Err(error) => {
            return Err(Rejection::Malformed(error));
        },
        Ok(packet) => packet,
    };
    match check_src(peer, src) {
        Err(rejection) => {
            return Err(rejection);
        },
        Ok(_) => {},
    }
    match check_audio_pkt(args, &packet) {
        Err(rejection) => {
            return Err(rejection);
        },
        Ok(_) => {},
    }
    Ok(packet)
}

/// Processes one datagram that arrived from `src`: an admitted packet's
/// samples are queued in the order they stand in the payload, for as long as
/// the queue has room; a dropped datagram leaves the queue as it was.
/// Returns how many samples were queued.
pub fn receive_into(
    args: &ReceptorArgs,
    peer: &Option<IpAddress>,
    src: &IpAddress,
    datagram: &[u8],
    producer: &mut RingBuffer,
) -> (received: Result<usize, Rejection>)
    ensures
        final(producer).spec_capacity() == old(producer).spec_capacity(),
        final(producer)@ == queue_after(
            old(producer)@,
            old(producer).spec_capacity(),
            args.stream_name@,
            args.channels,
            *peer,
            *src,
            datagram@,
        ),
        match received {
            Ok(accepted) => {
                let samples = pcm_samples(datagram@.skip(HEADER_SIZE as int));
                &&& datagram_rejection(args.stream_name@, args.channels, *peer, *src, datagram@)
                    .is_none()
                &&& accepted == accepted_count(
                    old(producer).spec_capacity(),
                    old(producer)@.len(),
                    samples.len(),
                )
                &&& final(producer)@ == old(producer)@ + samples.take(accepted as int)
            },
            Err(rejection) => {
                &&& datagram_rejection(args.stream_name@, args.channels, *peer, *src, datagram@)
                    == Some(rejection)
                &&& final(producer)@ == old(producer)@
            },
        },
{
    match receive_packet(args, peer, src, datagram) {
        Err(rejection) => Err(rejection),
        Ok(packet) => {
            let samples = decode_samples(packet.data.as_slice());
            Ok(producer.push_slice(samples.as_slice()))
        },
    }
}

/// The samples of latency that a budget of `latency_ms` milliseconds asks
/// for: the frames played in that time, rounded to the nearest whole frame
/// and halves up, times the channels.
pub open spec fn latency_samples(latency_ms: nat, sample_rate: nat, channels: nat) -> nat {
    ((latency_ms * sample_rate + 500) / 1000) * channels
}

/// The sample queue of a session: twice the latency's capacity, with the
/// latency's worth of silence queued. Nothing is returned when that
/// capacity does not fit the machine's word.
pub fn start_ring_buffer(args: &ReceptorArgs, config: &StreamConfig) -> (ring: Option<RingBuffer>)
    ensures
        ({
            let latency = latency_samples(
                args.latency as nat,
                config.sample_rate as nat,
                config.channels as nat,
            );
            &&& ring.is_some() == (2 * latency <= usize::MAX)
            &&& ring matches Some(r) ==> r.spec_capacity() == 2 * latency && r@ == silence(latency)
        }),
{
    let latency_ms = args.latency as u64;
    let sample_rate = config.sample_rate as u64;
    assert(latency_ms * sample_rate <= 0xffff_fffe_0000_0001) by (nonlinear_arith)
        requires
            latency_ms <= 0xffff_ffff,
            sample_rate <= 0xffff_ffff,
    ;
    let frames = (latency_ms * sample_rate + 500) / 1000;
    let channels = config.channels as u128;
    assert(frames * channels <= 0xffff_ffff_ffff_ffff * 0xffff) by (nonlinear_arith)
        requires
            frames <= 0xffff_ffff_ffff_ffff,
            channels <= 0xffff,
    ;
    let samples = frames as u128 * channels;
    if samples > usize::MAX as u128 {
        return None;
    }
    RingBuffer::with_latency(samples as usize)
}

/// Takes one report on a receiving session and decides what to do next. The
/// session follows the default device where it is configured for the device
/// `default`. The receive loop and playback run on their own while the
/// supervisor sleeps.
pub fn receptor(args: &ReceptorArgs, supervisor: &mut Supervisor, event: SessionEvent) -> (action:
    SessionAction)
    ensures
        (*final(supervisor), action) == decide(
            args.device@ == DEFAULT_DEVICE@,
            *old(supervisor),
            event,
        ),
{
    let follows_default = is_default(args.device.as_str());
    supervisor.step(follows_default, event)
}

/// Where the receive loop stands.
#[derive(Clone, Copy, Debug, PartialEq, Eq, Structural)]
pub enum ReceiveLoopState {
    /// The loop is about to ask whether it is to go on.
    Checking,
    /// The loop waits for a datagram.
    Receiving,
    /// The loop has returned.
    Returned,
}

/// What the receive loop's caller reports.
#[derive(Clone, Copy, Debug, PartialEq, Eq, Structural)]
pub enum ReceiveLoopEvent {
    /// The answer to the question whether the loop is to go on.
    Checked { should_run: bool },
    /// One receive has returned, with a datagram or with an error, and what
    /// it brought was processed.
    Received,
}

/// What the receive loop's caller is to do next.
#[derive(Clone, Copy, Debug, PartialEq, Eq, Structural)]
pub enum ReceiveLoopAction {
    /// Ask whether the loop is to go on, and report `Checked`.
    Check,
    /// Receive one datagram, process it with `receive_into` or log why the
    /// receive failed, and report `Received`.
    Receive,
    /// Leave the loop.
    Return,
    /// The report does not fit the state: do nothing.
    Ignore,
}

/// The receive loop's decision: it asks before every receive whether it is
/// to go on, receives once for every yes, and returns on the first no.
pub open spec fn receive_loop_decision(state: ReceiveLoopState, event: ReceiveLoopEvent) -> (
    ReceiveLoopState,
    ReceiveLoopAction,
) {
    match (state, event) {
        (ReceiveLoopState::Checking, ReceiveLoopEvent::Checked { should_run }) => if should_run {
            (ReceiveLoopState::Receiving, ReceiveLoopAction::Receive)
        } else {
            (ReceiveLoopState::Returned, ReceiveLoopAction::Return)
        },
        (ReceiveLoopState::Receiving, ReceiveLoopEvent::Received) => (
            ReceiveLoopState::Checking,
            ReceiveLoopAction::Check,
        ),
        _ => (state, ReceiveLoopAction::Ignore),
    }
}

/// Takes one report of the receive loop and decides what to do next. The
/// loop begins in `ReceiveLoopState::Checking`, and its caller with
/// `ReceiveLoopAction::Check`.
pub fn start_receive_loop(state: &mut ReceiveLoopState, event: ReceiveLoopEvent) -> (action:
    ReceiveLoopAction)
    ensures
        (*final(state), action) == receive_loop_decision(*old(state), event),
{
    match (*state, event) {
        (ReceiveLoopState::Checking, ReceiveLoopEvent::Checked { should_run }) => {
            if should_run {
                *state = ReceiveLoopState::Receiving;
                ReceiveLoopAction::Receive
            } else {
                *state = ReceiveLoopState::Returned;
                ReceiveLoopAction::Return
            }
        },
        (ReceiveLoopState::Receiving, ReceiveLoopEvent::Received) => {
            *state = ReceiveLoopState::Checking;
            ReceiveLoopAction::Check
        },
        _ => ReceiveLoopAction::Ignore,
    }
}

/// The reports of a loop that is told `rounds` times to go on, receives
/// after each, and is then told to stop.
pub open spec fn receive_loop_reports(rounds: nat) -> Seq<ReceiveLoopEvent>
    decreases rounds,
{
    if rounds == 0 {
        seq![ReceiveLoopEvent::Checked { should_run: false }]
    } else {
        seq![ReceiveLoopEvent::Checked { should_run: true }, ReceiveLoopEvent::Received]
            + receive_loop_reports((rounds - 1) as nat)
    }
}

/// The state of the loop after a run of reports, taken in order.
pub open spec fn receive_loop_after(state: ReceiveLoopState, events: Seq<ReceiveLoopEvent>)
    -> ReceiveLoopState
    decreases events.len(),
{
    if events.len() == 0 {
        state
    } else {
        receive_loop_after(receive_loop_decision(state, events[0]).0, events.drop_first())
    }
}

/// How many of the decisions on a run of reports, taken in order, are
/// `action`.
pub open spec fn receive_loop_count(
    action: ReceiveLoopAction,
    state: ReceiveLoopState,
    events: Seq<ReceiveLoopEvent>,
) -> nat
    decreases events.len(),
{
    if events.len() == 0 {
        0
    } else {
        let (next, decided) = receive_loop_decision(state, events[0]);
        receive_loop_count(action, next, events.drop_first()) + if decided == action {
            1nat
        } else {
            0nat
        }
    }
}

/// A loop that is told `rounds` times to go on and then to stop receives
/// exactly `rounds` times, asks `rounds + 1` times in all (its caller's
/// first question and one after each receive), and then returns: told to
/// stop at once, it receives nothing.
pub proof fn lemma_receive_loop_asks_first(rounds: nat)
    ensures
        ({
            let reports = receive_loop_reports(rounds);
            let start = ReceiveLoopState::Checking;
            &&& receive_loop_count(ReceiveLoopAction::Receive, start, reports) == rounds
            &&& receive_loop_count(ReceiveLoopAction::Check, start, reports) == rounds
            &&& receive_loop_count(ReceiveLoopAction::Return, start, reports) == 1
            &&& receive_loop_count(ReceiveLoopAction::Ignore, start, reports) == 0
            &&& receive_loop_after(start, reports) == ReceiveLoopState::Returned
        }),
    decreases rounds,
{
    let reports = receive_loop_reports(rounds);
    let start = ReceiveLoopState::Checking;
    if rounds == 0 {
        assert(reports.drop_first() =~= Seq::<ReceiveLoopEvent>::empty());
        reveal_with_fuel(receive_loop_count, 3);
        reveal_with_fuel(receive_loop_after, 3);
    } else {
        let rest = receive_loop_reports((rounds - 1) as nat);
        lemma_receive_loop_asks_first((rounds - 1) as nat);
        assert(reports[0] == ReceiveLoopEvent::Checked { should_run: true });
        assert(reports.drop_first()[0] == ReceiveLoopEvent::Received);
        assert(reports.drop_first().drop_first() =~= rest);
        reveal_with_fuel(receive_loop_count, 3);
        reveal_with_fuel(receive_loop_after, 3);
    }
}

impl Rejection {
    /// The rejection in words.
    pub open spec fn spec_message(self) -> Seq<char> {
        match self {
            Rejection::Malformed(error) => error.spec_message(),
            Rejection::WrongSource => "Wrong source"@,
            Rejection::WrongStreamName => "Wrong stream name"@,
            Rejection::WrongChannels => "Wrong number of channels"@,
            Rejection::WrongSubProtocol => "Wrong sub protocol"@,
            Rejection::WrongCodec => "Wrong codec"@,
        }
    }

    pub fn message(&self) -> (text: &'static str)
        ensures
            text@ == self.spec_message(),
    {
        match self {
            Rejection::Malformed(error) => error.message(),
            Rejection::WrongSource => "Wrong source",
            Rejection::WrongStreamName => "Wrong stream name",
            Rejection::WrongChannels => "Wrong number of channels",
            Rejection::WrongSubProtocol => "Wrong sub protocol",
            Rejection::WrongCodec => "Wrong codec",
        }
    }
}

} // verus!
