//! The session identity: what a receptor or an emitter is configured with.
//! It does not change while a session runs.

use vstd::prelude::*;

verus! {

/// Which audio backend to query.
#[derive(Clone, Debug, PartialEq, Eq)]
pub struct BackendArgs {
    pub backend: String,
}

/// The identity of a receiving session.
#[derive(Clone, Debug, PartialEq, Eq)]
pub struct ReceptorArgs {
    /// The latency budget in milliseconds.
    pub latency: u32,
    /// The name of the stream to listen to.
    pub stream_name: String,
    /// The number of channels of that stream.
    pub channels: u8,
    /// The address of the emitter.
    pub ip_address: String,
    /// The local port to receive on.
    pub port: u16,
    /// The playback device's name, or `default`.
    pub device: String,
    /// `input` or `output`.
    pub device_type: String,
    pub backend: String,
}

/// The identity of a sending session.
#[derive(Clone, Debug, PartialEq, Eq)]
pub struct EmitterArgs {
    /// The name of the stream to send.
    pub stream_name: String,
    /// The number of channels of that stream.
    pub channels: u8,
    /// The address of the receiver.
    pub ip_address: String,
    /// The receiver's port.
    pub port: u16,
    /// The capture device's name, or `default`.
    pub device: String,
    /// `input` or `output`.
    pub device_type: String,
    pub backend: String,
}

/// The two roles a session can take.
#[derive(Clone, Debug, PartialEq, Eq)]
pub enum Commands {
    /// Receive audio from a stream.
    Receptor(ReceptorArgs),
    /// Send audio to a stream.
    Emitter(EmitterArgs),
}

} // verus!
