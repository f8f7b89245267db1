//! The emitter's side of the audio bridge: the capture device it is bound
//! to, its stream, and the header and frame counter that its packets are
//! made from.

use crate::args::EmitterArgs;
use crate::device::{
    is_default_device, selected_device, Device, DeviceSnapshot, Host, HostSnapshot, StreamConfig,
};
use crate::emitter::{
    chunk_count, frame_number_after, holds_whole_frames, is_whole, packet_of, write_data,
};
use crate::pcm::{pcm_from_u16, signed_level};
use crate::protocol::{Header, Packet, MAX_NUM_SAMPLES, STREAM_NAME_SIZE};
use crate::stream::{
    pause, play, setup, status_of, stream_setup_error, SetupError, StreamError, StreamStatus,
    StreamStatusHandle,
};
use crate::supervisor::keeps_running;
use crate::text::{is_default, DEFAULT_DEVICE};
use vstd::prelude::*;
use vstd::utf8::encode_utf8;

verus! {

/// The first of the local ports an emitter tries to send from.
pub const FIRST_LOCAL_PORT: u16 = 6981;

/// How many local ports an emitter tries, one after the other.
pub const LOCAL_PORT_COUNT: u16 = 10;

/// The local ports an emitter tries to send from, in the order it tries
/// them.
pub fn local_ports() -> (ports: Vec<u16>)
    ensures
        ports@.len() == LOCAL_PORT_COUNT,
        forall|i: int| 0 <= i < ports@.len() ==> ports@[i] == FIRST_LOCAL_PORT + i,
{
    let mut ports: Vec<u16> = Vec::new();
    let mut i: u16 = 0;
    while i < LOCAL_PORT_COUNT
        invariant
            i <= LOCAL_PORT_COUNT,
            ports@.len() == i,
            forall|k: int| 0 <= k < i ==> ports@[k] == FIRST_LOCAL_PORT + k,
        decreases LOCAL_PORT_COUNT - i,
    {
        ports.push(FIRST_LOCAL_PORT + i);
        i = i + 1;
    }
    ports
}

/// Why an emitter cannot be bound on `host`, or nothing when it can. The
/// checks are made in this order: device, stream name.
pub open spec fn emitter_setup_error(args: EmitterArgs, host: HostSnapshot) -> Option<SetupError> {
    if selected_device(host.default_input, host.devices, args.device@).is_none() {
        Some(SetupError::NoInputDevice)
    } else if encode_utf8(args.stream_name@).len() > STREAM_NAME_SIZE {
        Some(SetupError::StreamNameTooLong)
    } else {
        None
    }
}

pub struct VbanEmitterStream {
    device: DeviceSnapshot,
    stream: Option<StreamStatusHandle>,
    header: Header,
    frame_count: u32,
}

impl VbanEmitterStream {
    /// The capture device the emitter is bound to.
    pub closed spec fn device(&self) -> DeviceSnapshot {
        self.device
    }

    /// The stream's status, or nothing while the stream is not set up.
    pub closed spec fn status(&self) -> Option<StreamStatus> {
        status_of(self.stream)
    }

    /// The header that the emitter's packets are made from.
    pub closed spec fn template(&self) -> Header {
        self.header
    }

    /// The frame number of the next packet.
    pub closed spec fn next_frame(&self) -> u32 {
        self.frame_count
    }

    /// The header that the emitter's packets are made from.
    pub fn header(&self) -> (header: Header)
        ensures
            header == self.template(),
    {
        self.header
    }

    /// What the bound device reports.
    pub fn bound_device(&self) -> (device: &DeviceSnapshot)
        ensures
            *device == self.device(),
    {
        &self.device
    }

    /// Binds an emitter: to the capture device that the configured name
    /// selects on `host`, with the header of the configured stream and
    /// channel count, no stream yet, and the frame counter at zero.
    pub fn new(args: &EmitterArgs, host: &HostSnapshot) -> (bound: Result<Self, SetupError>)
        ensures
            match bound {
                Ok(emitter) => {
                    &&& emitter_setup_error(*args, *host).is_none()
                    &&& selected_device(host.default_input, host.devices, args.device@) == Some(
                        emitter.device(),
                    )
                    &&& (Header { num_channels: 2, ..emitter.template() }).is_template_of(
                        args.stream_name@,
                    )
                    &&& emitter.template().num_channels == args.channels
                    &&& emitter.status().is_none()
                    &&& emitter.next_frame() == 0
                },
                Err(error) => emitter_setup_error(*args, *host) == Some(error),
            },
    {
        let device = match host.find_input_device(args.device.as_str()) {
            Some(found) => found.duplicate(),
            None => {
                return Err(SetupError::NoInputDevice);
            },
        };
        let mut header = match Header::new(args.stream_name.as_str()) {
            Some(header) => header,
            None => {
                return Err(SetupError::StreamNameTooLong);
            },
        };
        header.num_channels = args.channels as u16;
        Ok(VbanEmitterStream { device, stream: None, header, frame_count: 0 })
    }

    /// Builds the stream, stopped, for the device's configuration.
    pub fn setup_stream(&mut self) -> (done: Result<(), SetupError>)
        ensures
            final(self).device() == old(self).device(),
            final(self).template() == old(self).template(),
            final(self).next_frame() == old(self).next_frame(),
            match done {
                Ok(_) => {
                    &&& stream_setup_error(old(self).device()).is_none()
                    &&& final(self).status() == Some(StreamStatus::Stopped)
                },
                Err(error) => {
                    &&& stream_setup_error(old(self).device()) == Some(error)
                    &&& final(self).status() == old(self).status()
                },
            },
    {
        let mut stream = self.stream;
        let done = setup(&self.device, &mut stream);
        self.stream = stream;
        done
    }

    /// The configuration the device runs with.
    pub fn device_config(&self) -> (config: Result<StreamConfig, SetupError>)
        ensures
            match config {
                Ok(found) => crate::device::preferred_config(self.device()) == Ok::<
                    StreamConfig,
                    crate::device::NoDefaultConfig,
                >(found),
                Err(error) => error == SetupError::NoDefaultConfig
                    && crate::device::preferred_config(self.device()).is_err(),
            },
    {
        match self.device.default_config() {
            Ok(config) => Ok(config),
            Err(_) => Err(SetupError::NoDefaultConfig),
        }
    }

    /// Starts the stream; an error where it is not set up.
    pub fn play(&mut self) -> (done: Result<(), StreamError>)
        ensures
            final(self).device() == old(self).device(),
            final(self).template() == old(self).template(),
            final(self).next_frame() == old(self).next_frame(),
            done == if old(self).status().is_some() {
                Ok::<(), StreamError>(())
            } else {
                Err::<(), StreamError>(StreamError::EmitterNotSetUp)
            },
            final(self).status() == if old(self).status().is_some() {
                Some(StreamStatus::Running)
            } else {
                None::<StreamStatus>
            },
    {
        let mut stream = self.stream;
        let done = play(&mut stream, StreamError::EmitterNotSetUp);
        self.stream = stream;
        done
    }

    /// Stops the stream; an error where it is not set up.
    pub fn pause(&mut self) -> (done: Result<(), StreamError>)
        ensures
            final(self).device() == old(self).device(),
            final(self).template() == old(self).template(),
            final(self).next_frame() == old(self).next_frame(),
            done == if old(self).status().is_some() {
                Ok::<(), StreamError>(())
            } else {
                Err::<(), StreamError>(StreamError::EmitterNotSetUp)
            },
            final(self).status() == if old(self).status().is_some() {
                Some(StreamStatus::Stopped)
            } else {
                None::<StreamStatus>
            },
    {
        let mut stream = self.stream;
        let done = pause(&mut stream, StreamError::EmitterNotSetUp);
        self.stream = stream;
        done
    }

    /// The stream's status; an error where the stream is not set up.
    pub fn stream(&self) -> (status: Result<StreamStatus, StreamError>)
        ensures
            match status {
                Ok(found) => self.status() == Some(found),
                Err(error) => error == StreamError::EmitterNotSetUp && self.status().is_none(),
            },
    {
        match self.stream {
            Some(handle) => {
                if crate::stream::StreamStatusImpl::is_running(&handle) {
                    Ok(StreamStatus::Running)
                } else {
                    Ok(StreamStatus::Stopped)
                }
            },
            None => Err(StreamError::EmitterNotSetUp),
        }
    }

    /// Whether the bound device is the one that the host now reports as its
    /// default.
    pub fn bound_is_default(&self, host: &HostSnapshot) -> (default: bool)
        ensures
            default == is_default_device(self.device(), host.default_input),
    {
        self.device.is_default_input(host)
    }

    /// Whether the session is to go on, given what the host now reports. A
    /// session that is not to go on has its stream stopped.
    pub fn should_run(&mut self, args: &EmitterArgs, host: &HostSnapshot) -> (run: bool)
        ensures
            final(self).device() == old(self).device(),
            final(self).template() == old(self).template(),
            final(self).next_frame() == old(self).next_frame(),
            run == keeps_running(
                args.device@ == DEFAULT_DEVICE@,
                is_default_device(old(self).device(), host.default_input),
            ),
            final(self).status() == if run || old(self).status().is_none() {
                old(self).status()
            } else {
                Some(StreamStatus::Stopped)
            },
    {
        if is_default(args.device.as_str()) && !self.device.is_default_input(host) {
            let _ = self.pause();
            return false;
        }
        true
    }

    /// Turns a captured block of unsigned 16-bit samples into the packets to
    /// send: each sample is converted to PCM, then the block is written as
    /// `write` does.
    pub fn write_u16(&mut self, input: &[u16]) -> (packets: Vec<Packet>)
        ensures
            final(self).device() == old(self).device(),
            final(self).template() == old(self).template(),
            final(self).status() == old(self).status(),
            packets@.len() == chunk_count(input@.len(), MAX_NUM_SAMPLES as nat),
            forall|i: int|
                0 <= i < packets@.len() ==> ((#[trigger] packets@[i]).header, packets@[i].data@)
                    == packet_of(
                    input@.map_values(|s: u16| signed_level(s) as i16),
                    old(self).template(),
                    old(self).next_frame(),
                    i as nat,
                ),
            final(self).next_frame() == frame_number_after(
                old(self).next_frame(),
                packets@.len(),
            ),
            holds_whole_frames(old(self).template(), input@.len()) ==> forall|i: int|
                0 <= i < packets@.len() ==> is_whole(#[trigger] packets@[i]),
    {
        let samples = pcm_from_u16(input);
        assert(samples@ =~= input@.map_values(|s: u16| signed_level(s) as i16));
        self.write(samples.as_slice())
    }

    /// Turns a captured block of PCM into the packets to send, and moves the
    /// frame counter on.
    pub fn write(&mut self, input: &[i16]) -> (packets: Vec<Packet>)
        ensures
            final(self).device() == old(self).device(),
            final(self).template() == old(self).template(),
            final(self).status() == old(self).status(),
            packets@.len() == chunk_count(input@.len(), MAX_NUM_SAMPLES as nat),
            forall|i: int|
                0 <= i < packets@.len() ==> ((#[trigger] packets@[i]).header, packets@[i].data@)
                    == packet_of(input@, old(self).template(), old(self).next_frame(), i as nat),
            final(self).next_frame() == frame_number_after(
                old(self).next_frame(),
                packets@.len(),
            ),
            holds_whole_frames(old(self).template(), input@.len()) ==> forall|i: int|
                0 <= i < packets@.len() ==> is_whole(#[trigger] packets@[i]),
    {
        let mut frame_count = self.frame_count;
        let packets = write_data(input, &self.header, &mut frame_count);
        self.frame_count = frame_count;
        packets
    }
}

} // verus!
