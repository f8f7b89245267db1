//! Audio-over-datagram streaming core: the bounded sample queue between the
//! audio callback and the network loop, the emitter's frame chunker, the
//! receptor's packet admission filter, and the device-change supervisor.

pub mod args;
pub mod device;
pub mod emitter;
pub mod emitter_stream;
pub mod endian;
pub mod pcm;
pub mod pipeline;
pub mod protocol;
pub mod receptor;
pub mod receptor_stream;
pub mod ring_buffer;
pub mod stream;
pub mod supervisor;
pub mod text;
