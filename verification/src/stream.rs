//! Whether a stream is running, and the handle through which it is started
//! and stopped.

use crate::device::{preferred_config, Device, DeviceSnapshot, SampleFormat};
use vstd::prelude::*;

verus! {

/// The two states of a stream.
#[derive(Clone, Copy, Debug, PartialEq, Eq, Structural)]
pub enum StreamStatus {
    Stopped,
    Running,
}

/// A handle on a stream's status.
pub trait StreamStatusImpl: Sized {
    /// The status the handle holds.
    spec fn status(&self) -> StreamStatus;

    fn new_handle(status: StreamStatus) -> (handle: Self)
        ensures
            handle.status() == status,
    ;

    /// Starts a stopped stream; a running one keeps running.
    fn play(&mut self)
        ensures
            final(self).status() == StreamStatus::Running,
    ;

    /// Stops a running stream; a stopped one stays stopped.
    fn pause(&mut self)
        ensures
            final(self).status() == StreamStatus::Stopped,
    ;

    fn is_running(&self) -> (running: bool)
        ensures
            running == (self.status() == StreamStatus::Running),
    ;
}

/// The status of one stream.
#[derive(Clone, Copy, Debug, PartialEq, Eq, Structural)]
pub struct StreamStatusHandle {
    status: StreamStatus,
}

impl StreamStatusImpl for StreamStatusHandle {
    closed spec fn status(&self) -> StreamStatus {
        self.status
    }

    fn new_handle(status: StreamStatus) -> (handle: Self) {
        StreamStatusHandle { status }
    }

    fn play(&mut self) {
        if self.status == StreamStatus::Stopped {
            self.status = StreamStatus::Running;
        }
    }

    fn pause(&mut self) {
        if self.status == StreamStatus::Running {
            self.status = StreamStatus::Stopped;
        }
    }

    fn is_running(&self) -> (running: bool) {
        self.status == StreamStatus::Running
    }
}

/// A stream was used before it was set up.
#[derive(Clone, Copy, Debug, PartialEq, Eq, Structural)]
pub enum StreamError {
    /// An emitter's stream.
    EmitterNotSetUp,
    /// A receptor's stream.
    ReceptorNotSetUp,
}

/// Why a session cannot be set up.
#[derive(Clone, Copy, Debug, PartialEq, Eq, Structural)]
pub enum SetupError {
    /// The host has no capture device of the configured name.
    NoInputDevice,
    /// The host has no playback device of the configured name.
    NoOutputDevice,
    /// The device offers no stream configuration.
    NoDefaultConfig,
    /// The device's samples are neither 32-bit floats nor signed or unsigned
    /// 16-bit integers.
    UnsupportedSampleFormat,
    /// The stream name does not fit the header's name field.
    StreamNameTooLong,
}

/// Whether a stream can be built for samples of the given format.
pub fn is_supported(format: SampleFormat) -> (supported: bool)
    ensures
        supported == (format == SampleFormat::F32 || format == SampleFormat::I16 || format
            == SampleFormat::U16),
{
    match format {
        SampleFormat::F32 => true,
        SampleFormat::I16 => true,
        SampleFormat::U16 => true,
        _ => false,
    }
}

/// Why a stream cannot be built on `device`, or nothing when it can.
pub open spec fn stream_setup_error(device: DeviceSnapshot) -> Option<SetupError> {
    match preferred_config(device) {
        Err(_) => Some(SetupError::NoDefaultConfig),
        Ok(config) => if config.sample_format == SampleFormat::F32 || config.sample_format
            == SampleFormat::I16 || config.sample_format == SampleFormat::U16 {
            None
        } else {
            Some(SetupError::UnsupportedSampleFormat)
        },
    }
}

/// The status of a stream that may not be set up yet.
pub open spec fn status_of(stream: Option<StreamStatusHandle>) -> Option<StreamStatus> {
    match stream {
        Some(handle) => Some(handle.status()),
        None => None,
    }
}

/// Builds the stream of a device: stopped, once the device offers a
/// configuration in a supported sample format.
pub fn setup(device: &DeviceSnapshot, stream: &mut Option<StreamStatusHandle>) -> (done: Result<
    (),
    SetupError,
>)
    ensures
        match done {
            Ok(_) => stream_setup_error(*device).is_none() && status_of(*final(stream)) == Some(
                StreamStatus::Stopped,
            ),
            Err(error) => stream_setup_error(*device) == Some(error) && *final(stream) == *old(
                stream,
            ),
        },
{
    match device.default_config() {
        Err(_) => Err(SetupError::NoDefaultConfig),
        Ok(config) => {
            if !is_supported(config.sample_format) {
                return Err(SetupError::UnsupportedSampleFormat);
            }
            *stream = Some(StreamStatusHandle::new_handle(StreamStatus::Stopped));
            Ok(())
        },
    }
}

/// Starts a stream that is set up; where it is not, reports `not_set_up`.
pub fn play(stream: &mut Option<StreamStatusHandle>, not_set_up: StreamError) -> (done: Result<
    (),
    StreamError,
>)
    ensures
        done == if old(stream).is_some() {
            Ok::<(), StreamError>(())
        } else {
            Err::<(), StreamError>(not_set_up)
        },
        done.is_ok() ==> status_of(*final(stream)) == Some(StreamStatus::Running),
        done.is_err() ==> *final(stream) == *old(stream),
{
    match stream {
        Some(handle) => {
            handle.play();
            Ok(())
        },
        None => Err(not_set_up),
    }
}

/// Stops a stream that is set up; where it is not, reports `not_set_up`.
pub fn pause(stream: &mut Option<StreamStatusHandle>, not_set_up: StreamError) -> (done: Result<
    (),
    StreamError,
>)
    ensures
        done == if old(stream).is_some() {
            Ok::<(), StreamError>(())
        } else {
            Err::<(), StreamError>(not_set_up)
        },
        done.is_ok() ==> status_of(*final(stream)) == Some(StreamStatus::Stopped),
        done.is_err() ==> *final(stream) == *old(stream),
{
    match stream {
        Some(handle) => {
            handle.pause();
            Ok(())
        },
        None => Err(not_set_up),
    }
}

impl StreamError {
    /// The error in words.
    pub open spec fn spec_message(self) -> Seq<char> {
        match self {
            StreamError::EmitterNotSetUp => "you first need to call .setup_stream in the VbanEmitterStream"@,
            StreamError::ReceptorNotSetUp => "you first need to call .setup_stream in the VbanReceptorStream"@,
        }
    }

    pub fn message(&self) -> (text: &'static str)
        ensures
            text@ == self.spec_message(),
    {
        match self {
            StreamError::EmitterNotSetUp => "you first need to call .setup_stream in the VbanEmitterStream",
            StreamError::ReceptorNotSetUp => "you first need to call .setup_stream in the VbanReceptorStream",
        }
    }
}

impl SetupError {
    /// The error in words.
    pub open spec fn spec_message(self) -> Seq<char> {
        match self {
            SetupError::NoInputDevice => "no input device available"@,
            SetupError::NoOutputDevice => "no output device available"@,
            SetupError::NoDefaultConfig => "No default config found"@,
            SetupError::UnsupportedSampleFormat => "unsupported sample format"@,
            SetupError::StreamNameTooLong => "stream name longer than 16 bytes"@,
        }
    }

    pub fn message(&self) -> (text: &'static str)
        ensures
            text@ == self.spec_message(),
    {
        match self {
            SetupError::NoInputDevice => "no input device available",
            SetupError::NoOutputDevice => "no output device available",
            SetupError::NoDefaultConfig => "No default config found",
            SetupError::UnsupportedSampleFormat => "unsupported sample format",
            SetupError::StreamNameTooLong => "stream name longer than 16 bytes",
        }
    }
}

} // verus!
