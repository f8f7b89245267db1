//! The receptor's side of the audio bridge: the playback device it is bound
//! to, its stream, and the sample queue that the network fills and playback
//! drains.

use crate::args::ReceptorArgs;
use crate::device::{
    is_default_device, preferred_config, selected_device, Device, DeviceSnapshot, Host,
    HostSnapshot, NoDefaultConfig, StreamConfig,
};
use crate::pcm::pcm_samples;
use crate::protocol::HEADER_SIZE;
use crate::receptor::{datagram_rejection, receive_into, IpAddress, Rejection};
use crate::ring_buffer::{accepted_count, playback_block, RingBuffer};
use crate::stream::{
    pause, play, setup, status_of, stream_setup_error, SetupError, StreamError, StreamStatus,
    StreamStatusHandle,
};
use crate::supervisor::keeps_running;
use crate::text::{is_default, DEFAULT_DEVICE};
use vstd::prelude::*;

verus! {

pub struct VbanReceptorStream {
    device: DeviceSnapshot,
    stream: Option<StreamStatusHandle>,
    consumer: Option<RingBuffer>,
}

impl VbanReceptorStream {
    /// The playback device the receptor is bound to.
    pub closed spec fn device(&self) -> DeviceSnapshot {
        self.device
    }

    /// The stream's status, or nothing while the stream is not set up.
    pub closed spec fn status(&self) -> Option<StreamStatus> {
        status_of(self.stream)
    }

    /// The queued samples, oldest first; none while the stream is not set
    /// up.
    pub closed spec fn queued(&self) -> Seq<i16> {
        match self.consumer {
            Some(ring) => ring@,
            None => Seq::empty(),
        }
    }

    /// The queue's capacity; none while the stream is not set up.
    pub closed spec fn capacity(&self) -> nat {
        match self.consumer {
            Some(ring) => ring.spec_capacity(),
            None => 0,
        }
    }

    /// What the bound device reports.
    pub fn bound_device(&self) -> (device: &DeviceSnapshot)
        ensures
            *device == self.device(),
    {
        &self.device
    }

    /// Whether the stream is set up and running.
    pub fn is_running(&self) -> (running: bool)
        ensures
            running == (self.status() == Some(StreamStatus::Running)),
    {
        match self.stream {
            Some(handle) => crate::stream::StreamStatusImpl::is_running(&handle),
            None => false,
        }
    }

    /// Binds a receptor to the playback device that the configured name
    /// selects on `host`, with no stream and no queue yet.
    pub fn new(args: &ReceptorArgs, host: &HostSnapshot) -> (bound: Result<Self, SetupError>)
        ensures
            match bound {
                Ok(receptor) => {
                    &&& selected_device(host.default_output, host.devices, args.device@) == Some(
                        receptor.device(),
                    )
                    &&& receptor.status().is_none()
                    &&& receptor.queued() == Seq::<i16>::empty()
                    &&& receptor.capacity() == 0
                },
                Err(error) => {
                    &&& error == SetupError::NoOutputDevice
                    &&& selected_device(host.default_output, host.devices, args.device@).is_none()
                },
            },
    {
        match host.find_output_device(args.device.as_str()) {
            Some(found) => Ok(
                VbanReceptorStream { device: found.duplicate(), stream: None, consumer: None },
            ),
            None => Err(SetupError::NoOutputDevice),
        }
    }

    /// The configuration the device runs with.
    pub fn device_config(&self) -> (config: Result<StreamConfig, SetupError>)
        ensures
            match config {
                Ok(found) => preferred_config(self.device()) == Ok::<StreamConfig, NoDefaultConfig>(
                    found,
                ),
                Err(error) => error == SetupError::NoDefaultConfig && preferred_config(
                    self.device(),
                ).is_err(),
            },
    {
        match self.device.default_config() {
            Ok(config) => Ok(config),
            Err(_) => Err(SetupError::NoDefaultConfig),
        }
    }

    /// Builds the stream, stopped, on the given queue. Where the device
    /// offers no supported configuration nothing changes and the queue is
    /// dropped.
    pub fn setup_stream(&mut self, consumer: RingBuffer) -> (done: Result<(), SetupError>)
        ensures
            final(self).device() == old(self).device(),
            match done {
                Ok(_) => {
                    &&& stream_setup_error(old(self).device()).is_none()
                    &&& final(self).status() == Some(StreamStatus::Stopped)
                    &&& final(self).queued() == consumer@
                    &&& final(self).capacity() == consumer.spec_capacity()
                },
                Err(error) => {
                    &&& stream_setup_error(old(self).device()) == Some(error)
                    &&& final(self).status() == old(self).status()
                    &&& final(self).queued() == old(self).queued()
                    &&& final(self).capacity() == old(self).capacity()
                },
            },
    {
        let mut stream = self.stream;
        let done = setup(&self.device, &mut stream);
        if done.is_ok() {
            self.stream = stream;
            self.consumer = Some(consumer);
        }
        done
    }

    /// Starts the stream; an error where it is not set up.
    pub fn play(&mut self) -> (done: Result<(), StreamError>)
        ensures
            final(self).device() == old(self).device(),
            final(self).queued() == old(self).queued(),
            final(self).capacity() == old(self).capacity(),
            done == if old(self).status().is_some() {
                Ok::<(), StreamError>(())
            } else {
                Err::<(), StreamError>(StreamError::ReceptorNotSetUp)
            },
            final(self).status() == if old(self).status().is_some() {
                Some(StreamStatus::Running)
            } else {
                None::<StreamStatus>
            },
    {
        let mut stream = self.stream;
        let done = play(&mut stream, StreamError::ReceptorNotSetUp);
        self.stream = stream;
        done
    }

    /// Stops the stream; an error where it is not set up.
    pub fn pause(&mut self) -> (done: Result<(), StreamError>)
        ensures
            final(self).device() == old(self).device(),
            final(self).queued() == old(self).queued(),
            final(self).capacity() == old(self).capacity(),
            done == if old(self).status().is_some() {
                Ok::<(), StreamError>(())
            } else {
                Err::<(), StreamError>(StreamError::ReceptorNotSetUp)
            },
            final(self).status() == if old(self).status().is_some() {
                Some(StreamStatus::Stopped)
            } else {
                None::<StreamStatus>
            },
    {
        let mut stream = self.stream;
        let done = pause(&mut stream, StreamError::ReceptorNotSetUp);
        self.stream = stream;
        done
    }

    /// Whether the bound device is the one that the host now reports as its
    /// default.
    pub fn bound_is_default(&self, host: &HostSnapshot) -> (default: bool)
        ensures
            default == is_default_device(self.device(), host.default_output),
    {
        self.device.is_default_output(host)
    }

    /// Whether the session is to go on, given what the host now reports. A
    /// session that is not to go on has its stream stopped.
    pub fn should_run(&mut self, args: &ReceptorArgs, host: &HostSnapshot) -> (run: bool)
        ensures
            final(self).device() == old(self).device(),
            final(self).queued() == old(self).queued(),
            final(self).capacity() == old(self).capacity(),
            run == keeps_running(
                args.device@ == DEFAULT_DEVICE@,
                is_default_device(old(self).device(), host.default_output),
            ),
            final(self).status() == if run || old(self).status().is_none() {
                old(self).status()
            } else {
                Some(StreamStatus::Stopped)
            },
    {
        if is_default(args.device.as_str()) && !self.device.is_default_output(host) {
            let _ = self.pause();
            return false;
        }
        true
    }

    /// Processes one datagram that arrived from `src`: an admitted packet's
    /// samples are queued for as long as there is room, a dropped datagram
    /// changes nothing. Returns how many samples were queued.
    pub fn receive(
        &mut self,
        args: &ReceptorArgs,
        peer: &Option<IpAddress>,
        src: &IpAddress,
        datagram: &[u8],
    ) -> (received: Result<usize, Rejection>)
        ensures
            final(self).device() == old(self).device(),
            final(self).status() == old(self).status(),
            final(self).capacity() == old(self).capacity(),
            match received {
                Ok(accepted) => {
                    let samples = pcm_samples(datagram@.skip(HEADER_SIZE as int));
                    &&& datagram_rejection(
                        args.stream_name@,
                        args.channels,
                        *peer,
                        *src,
                        datagram@,
                    ).is_none()
                    &&& accepted == accepted_count(
                        old(self).capacity(),
                        old(self).queued().len(),
                        samples.len(),
                    )
                    &&& final(self).queued() == old(self).queued() + samples.take(accepted as int)
                },
                Err(rejection) => {
                    &&& datagram_rejection(
                        args.stream_name@,
                        args.channels,
                        *peer,
                        *src,
                        datagram@,
                    ) == Some(rejection)
                    &&& final(self).queued() == old(self).queued()
                },
            },
    {
        match &mut self.consumer {
            Some(ring) => receive_into(args, peer, src, datagram, ring),
            None => {
                let mut none = RingBuffer::new(0);
                let received = receive_into(args, peer, src, datagram, &mut none);
                proof {
                    if received is Ok {
                        let samples = pcm_samples(datagram@.skip(HEADER_SIZE as int));
                        assert(samples.take(0) =~= Seq::<i16>::empty());
                        assert(self.queued() + samples.take(0) =~= self.queued());
                    }
                }
                received
            },
        }
    }

    /// Fills a playback block from the queue, oldest sample first, and with
    /// silence where the queue runs out.
    pub fn read(&mut self, output: &mut [i16])
        ensures
            final(self).device() == old(self).device(),
            final(self).status() == old(self).status(),
            final(self).capacity() == old(self).capacity(),
            final(output)@ == playback_block(old(self).queued(), old(output)@.len()),
            final(self).queued() == old(self).queued().skip(
                accepted_count(old(self).queued().len(), 0, old(output)@.len()) as int,
            ),
    {
        match &mut self.consumer {
            Some(ring) => ring.fill(output),
            None => {
                let mut none = RingBuffer::new(0);
                none.fill(output);
                assert(self.queued().skip(0) =~= self.queued());
            },
        }
    }
}

} // verus!
