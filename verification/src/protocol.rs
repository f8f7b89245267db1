//! The wire format: a 28-byte header followed by raw PCM bytes.
//!
//! | bytes  | content                                                  |
//! |--------|----------------------------------------------------------|
//! | 0..4   | the magic number `VBAN`                                  |
//! | 4      | sample-rate index (low 5 bits), sub-protocol (high 3)    |
//! | 5      | samples per channel, minus one                           |
//! | 6      | channels, minus one                                      |
//! | 7      | bit resolution (low 3 bits), reserved bit 3, codec (high 4) |
//! | 8..24  | stream name, padded with NUL bytes                       |
//! | 24..28 | frame number, little-endian                              |

use crate::endian::{le_bytes_u32, le_u32, lemma_le_u32_round_trip, read_u32_le, write_u32_le};
use vstd::prelude::*;
use vstd::slice::slice_subrange;
use vstd::utf8::encode_utf8;

verus! {

/// The most samples one packet carries.
pub const MAX_NUM_SAMPLES: usize = 256;

/// The size of the header in bytes.
pub const HEADER_SIZE: usize = 28;

/// The largest datagram of the protocol, header included.
pub const MAX_PACKET_SIZE: usize = 1464;

/// The size of the stream-name field in bytes.
pub const STREAM_NAME_SIZE: usize = 16;

/// How many sample rates the protocol's table lists.
pub const SAMPLE_RATE_COUNT: u8 = 21;

/// The table index of 48 kHz.
pub const SAMPLE_RATE_48000: u8 = 3;

/// How many sample encodings the protocol's table lists.
pub const BIT_RESOLUTION_COUNT: u8 = 8;

/// The table index of signed 16-bit samples.
pub const BIT_RESOLUTION_SIGNED_16: u8 = 1;

/// What kind of payload a packet carries.
#[derive(Clone, Copy, Debug, PartialEq, Eq, Structural)]
pub enum SubProtocol {
    Audio,
    Serial,
    Text,
    Service,
    Undefined1,
    Undefined2,
    Undefined3,
    User,
}

impl SubProtocol {
    /// The tag's three-bit code.
    pub open spec fn spec_code(self) -> int {
        match self {
            SubProtocol::Audio => 0,
            SubProtocol::Serial => 1,
            SubProtocol::Text => 2,
            SubProtocol::Service => 3,
            SubProtocol::Undefined1 => 4,
            SubProtocol::Undefined2 => 5,
            SubProtocol::Undefined3 => 6,
            SubProtocol::User => 7,
        }
    }

    /// The tag with the given three-bit code.
    pub open spec fn spec_from_code(code: int) -> SubProtocol {
        if code == 0 {
            SubProtocol::Audio
        } else if code == 1 {
            SubProtocol::Serial
        } else if code == 2 {
            SubProtocol::Text
        } else if code == 3 {
            SubProtocol::Service
        } else if code == 4 {
            SubProtocol::Undefined1
        } else if code == 5 {
            SubProtocol::Undefined2
        } else if code == 6 {
            SubProtocol::Undefined3
        } else {
            SubProtocol::User
        }
    }

    pub fn code(self) -> (code: u8)
        ensures
            code == self.spec_code(),
            code < 8,
    {
        match self {
            SubProtocol::Audio => 0,
            SubProtocol::Serial => 1,
            SubProtocol::Text => 2,
            SubProtocol::Service => 3,
            SubProtocol::Undefined1 => 4,
            SubProtocol::Undefined2 => 5,
            SubProtocol::Undefined3 => 6,
            SubProtocol::User => 7,
        }
    }

    /// The tag with the given code; codes above seven read as `User`.
    pub fn from_code(code: u8) -> (tag: SubProtocol)
        ensures
            tag == SubProtocol::spec_from_code(code as int),
            code < 8 ==> tag.spec_code() == code,
    {
        if code == 0 {
            SubProtocol::Audio
        } else if code == 1 {
            SubProtocol::Serial
        } else if code == 2 {
            SubProtocol::Text
        } else if code == 3 {
            SubProtocol::Service
        } else if code == 4 {
            SubProtocol::Undefined1
        } else if code == 5 {
            SubProtocol::Undefined2
        } else if code == 6 {
            SubProtocol::Undefined3
        } else {
            SubProtocol::User
        }
    }
}

/// How the payload's samples are compressed.
#[derive(Clone, Copy, Debug, PartialEq, Eq, Structural)]
pub enum Codec {
    PCM,
    VBCA,
    VBCV,
    Undefined1,
    Undefined2,
    Undefined3,
    Undefined4,
    Undefined5,
    Undefined6,
    Undefined7,
    Undefined8,
    Undefined9,
    Undefined10,
    Undefined11,
    Undefined12,
    User,
}

impl Codec {
    /// The tag's four-bit code.
    pub open spec fn spec_code(self) -> int {
        match self {
            Codec::PCM => 0,
            Codec::VBCA => 1,
            Codec::VBCV => 2,
            Codec::Undefined1 => 3,
            Codec::Undefined2 => 4,
            Codec::Undefined3 => 5,
            Codec::Undefined4 => 6,
            Codec::Undefined5 => 7,
            Codec::Undefined6 => 8,
            Codec::Undefined7 => 9,
            Codec::Undefined8 => 10,
            Codec::Undefined9 => 11,
            Codec::Undefined10 => 12,
            Codec::Undefined11 => 13,
            Codec::Undefined12 => 14,
            Codec::User => 15,
        }
    }

    /// The tag with the given four-bit code.
    pub open spec fn spec_from_code(code: int) -> Codec {
        if code == 0 {
            Codec::PCM
        } else if code == 1 {
            Codec::VBCA
        } else if code == 2 {
            Codec::VBCV
        } else if code == 3 {
            Codec::Undefined1
        } else if code == 4 {
            Codec::Undefined2
        } else if code == 5 {
            Codec::Undefined3
        } else if code == 6 {
            Codec::Undefined4
        } else if code == 7 {
            Codec::Undefined5
        } else if code == 8 {
            Codec::Undefined6
        } else if code == 9 {
            Codec::Undefined7
        } else if code == 10 {
            Codec::Undefined8
        } else if code == 11 {
            Codec::Undefined9
        } else if code == 12 {
            Codec::Undefined10
        } else if code == 13 {
            Codec::Undefined11
        } else if code == 14 {
            Codec::Undefined12
        } else {
            Codec::User
        }
    }

    pub fn code(self) -> (code: u8)
        ensures
            code == self.spec_code(),
            code < 16,
    {
        match self {
            Codec::PCM => 0,
            Codec::VBCA => 1,
            Codec::VBCV => 2,
            Codec::Undefined1 => 3,
            Codec::Undefined2 => 4,
            Codec::Undefined3 => 5,
            Codec::Undefined4 => 6,
            Codec::Undefined5 => 7,
            Codec::Undefined6 => 8,
            Codec::Undefined7 => 9,
            Codec::Undefined8 => 10,
            Codec::Undefined9 => 11,
            Codec::Undefined10 => 12,
            Codec::Undefined11 => 13,
            Codec::Undefined12 => 14,
            Codec::User => 15,
        }
    }

    /// The tag with the given code; codes above fifteen read as `User`.
    pub fn from_code(code: u8) -> (tag: Codec)
        ensures
            tag == Codec::spec_from_code(code as int),
            code < 16 ==> tag.spec_code() == code,
    {
        if code == 0 {
            Codec::PCM
        } else if code == 1 {
            Codec::VBCA
        } else if code == 2 {
            Codec::VBCV
        } else if code == 3 {
            Codec::Undefined1
        } else if code == 4 {
            Codec::Undefined2
        } else if code == 5 {
            Codec::Undefined3
        } else if code == 6 {
            Codec::Undefined4
        } else if code == 7 {
            Codec::Undefined5
        } else if code == 8 {
            Codec::Undefined6
        } else if code == 9 {
            Codec::Undefined7
        } else if code == 10 {
            Codec::Undefined8
        } else if code == 11 {
            Codec::Undefined9
        } else if code == 12 {
            Codec::Undefined10
        } else if code == 13 {
            Codec::Undefined11
        } else if code == 14 {
            Codec::Undefined12
        } else {
            Codec::User
        }
    }
}

/// Why a datagram is not a packet of the protocol.
#[derive(Clone, Copy, Debug, PartialEq, Eq, Structural)]
pub enum DecodeError {
    /// The datagram is shorter than a header.
    TooShort,
    /// The datagram does not open with `VBAN`.
    MissingMagicNumber,
    /// The sample-rate index is not in the protocol's table.
    UnknownSampleRate,
    /// The reserved bit of the format byte is set.
    MalformedFormat,
}

/// The fields of a packet header.
#[derive(Clone, Copy, Debug, PartialEq, Eq)]
pub struct Header {
    /// Index into the protocol's table of sample rates.
    pub sample_rate: u8,
    pub sub_protocol: SubProtocol,
    /// Samples per channel in the packet.
    pub num_samples: u16,
    pub num_channels: u16,
    /// Index into the protocol's table of sample encodings.
    pub bit_resolution: u8,
    pub codec: Codec,
    /// The stream name as it stands on the wire, NUL-padded.
    pub stream_name: [u8; 16],
    pub frame_number: u32,
}

/// The magic number that opens every packet.
pub open spec fn magic() -> Seq<u8> {
    seq![0x56u8, 0x42u8, 0x41u8, 0x4eu8]
}

/// `name` followed by NUL bytes up to the size of the name field.
pub open spec fn padded_name(name: Seq<u8>) -> Seq<u8>
    recommends
        name.len() <= STREAM_NAME_SIZE,
{
    Seq::new(STREAM_NAME_SIZE as nat, |i: int| if i < name.len() { name[i] } else { 0u8 })
}

/// `field` without its NUL bytes.
pub open spec fn strip_nul(field: Seq<u8>) -> Seq<u8> {
    field.filter(|b: u8| b != 0)
}

impl Header {
    /// Whether this is the header that a stream of the given name starts
    /// from: 48 kHz stereo audio in signed 16-bit PCM, a full packet, frame
    /// number zero.
    pub open spec fn is_template_of(self, stream_name: Seq<char>) -> bool {
        &&& self.sample_rate == SAMPLE_RATE_48000
        &&& self.sub_protocol == SubProtocol::Audio
        &&& self.num_samples == MAX_NUM_SAMPLES
        &&& self.num_channels == 2
        &&& self.bit_resolution == BIT_RESOLUTION_SIGNED_16
        &&& self.codec == Codec::PCM
        &&& self.stream_name@ == padded_name(encode_utf8(stream_name))
        &&& self.frame_number == 0
    }

    /// The header of 48 kHz stereo audio in signed 16-bit PCM under the
    /// given stream name, or nothing when the name does not fit its field.
    pub fn new(stream_name: &str) -> (header: Option<Header>)
        ensures
            header.is_some() == (encode_utf8(stream_name@).len() <= STREAM_NAME_SIZE),
            header matches Some(h) ==> h.is_template_of(stream_name@),
    {
        let bytes = stream_name.as_bytes();
        if bytes.len() > STREAM_NAME_SIZE {
            return None;
        }
        let mut name = [0u8; 16];
        let mut i: usize = 0;
        while i < bytes.len()
            invariant
                i <= bytes@.len() <= STREAM_NAME_SIZE,
                forall|k: int| 0 <= k < i ==> name@[k] == bytes@[k],
                forall|k: int| i <= k < 16 ==> name@[k] == 0,
            decreases bytes@.len() - i,
        {
            name[i] = bytes[i];
            i = i + 1;
        }
        assert(name@ =~= padded_name(bytes@));
        Some(
            Header {
                sample_rate: SAMPLE_RATE_48000,
                sub_protocol: SubProtocol::Audio,
                num_samples: 256,
                num_channels: 2,
                bit_resolution: BIT_RESOLUTION_SIGNED_16,
                codec: Codec::PCM,
                stream_name: name,
                frame_number: 0,
            },
        )
    }

    /// The stream name: the name field without its NUL bytes.
    pub fn stream_name(&self) -> (name: Vec<u8>)
        ensures
            name@ == strip_nul(self.stream_name@),
    {
        let mut name: Vec<u8> = Vec::new();
        let mut i: usize = 0;
        assert(self.stream_name@.take(0) =~= Seq::<u8>::empty());
        while i < 16
            invariant
                i <= 16,
                name@ == strip_nul(self.stream_name@.take(i as int)),
            decreases 16 - i,
        {
            let b = self.stream_name[i];
            proof {
                let pred = |b: u8| b != 0;
                let before = self.stream_name@.take(i as int);
                let after = self.stream_name@.take(i + 1);
                assert(after.drop_last() =~= before);
                assert(after.last() == b);
                reveal_with_fuel(Seq::filter, 2);
            }
            if b != 0 {
                name.push(b);
            }
            i = i + 1;
        }
        assert(self.stream_name@.take(16) =~= self.stream_name@);
        name
    }

    /// Whether the stream name equals `expected`, byte for byte.
    pub fn has_stream_name(&self, expected: &str) -> (same: bool)
        ensures
            same == (strip_nul(self.stream_name@) == encode_utf8(expected@)),
    {
        let name = self.stream_name();
        let wanted = expected.as_bytes();
        if name.len() != wanted.len() {
            return false;
        }
        let mut i: usize = 0;
        while i < name.len()
            invariant
                i <= name@.len() == wanted@.len(),
                name@ == strip_nul(self.stream_name@),
                wanted@ == encode_utf8(expected@),
                forall|k: int| 0 <= k < i ==> name@[k] == wanted@[k],
            decreases name@.len() - i,
        {
            if name[i] != wanted[i] {
                return false;
            }
            i = i + 1;
        }
        assert(name@ =~= wanted@);
        true
    }

    /// Whether every field fits its place on the wire.
    pub open spec fn encodable(self) -> bool {
        &&& self.sample_rate < SAMPLE_RATE_COUNT
        &&& 1 <= self.num_samples <= 256
        &&& 1 <= self.num_channels <= 256
        &&& self.bit_resolution < BIT_RESOLUTION_COUNT
    }

    /// The 28 bytes that stand for an encodable header on the wire.
    pub open spec fn wire(self) -> Seq<u8>
        recommends
            self.encodable(),
    {
        magic() + seq![
            (self.sample_rate + 32 * self.sub_protocol.spec_code()) as u8,
            (self.num_samples - 1) as u8,
            (self.num_channels - 1) as u8,
            (self.bit_resolution + 16 * self.codec.spec_code()) as u8,
        ] + self.stream_name@ + le_bytes_u32(self.frame_number)
    }

    /// The header's bytes on the wire, or nothing when a field does not fit.
    pub fn encode(&self) -> (bytes: Option<Vec<u8>>)
        ensures
            bytes.is_some() == self.encodable(),
            bytes matches Some(b) ==> b@ == self.wire() && b@.len() == HEADER_SIZE,
    {
        if self.sample_rate >= SAMPLE_RATE_COUNT || self.num_samples < 1 || self.num_samples > 256
            || self.num_channels < 1 || self.num_channels > 256 || self.bit_resolution
            >= BIT_RESOLUTION_COUNT {
            return None;
        }
        let mut bytes: Vec<u8> = Vec::with_capacity(HEADER_SIZE);
        bytes.push(0x56);
        bytes.push(0x42);
        bytes.push(0x41);
        bytes.push(0x4e);
        bytes.push(self.sample_rate + 32 * self.sub_protocol.code());
        bytes.push((self.num_samples - 1) as u8);
        bytes.push((self.num_channels - 1) as u8);
        bytes.push(self.bit_resolution + 16 * self.codec.code());
        let mut i: usize = 0;
        while i < 16
            invariant
                i <= 16,
                bytes@.len() == 8 + i,
                bytes@.subrange(0, 8) == self.wire().subrange(0, 8),
                forall|k: int| 0 <= k < i ==> bytes@[8 + k] == self.stream_name@[k],
            decreases 16 - i,
        {
            bytes.push(self.stream_name[i]);
            i = i + 1;
        }
        let frame = write_u32_le(self.frame_number);
        bytes.push(frame[0]);
        bytes.push(frame[1]);
        bytes.push(frame[2]);
        bytes.push(frame[3]);
        proof {
            let w = self.wire();
            assert(w.len() == 28);
            assert forall|k: int| 0 <= k < 28 implies bytes@[k] == w[k] by {
                if k < 8 {
                    assert(bytes@.subrange(0, 8)[k] == w.subrange(0, 8)[k]);
                }
            }
            assert(bytes@ =~= w);
        }
        Some(bytes)
    }
}


/// Why `bytes` does not open with a header, or nothing when it does. The
/// checks are made in this order: length, magic number, sample rate,
/// reserved bit.
pub open spec fn decode_error(bytes: Seq<u8>) -> Option<DecodeError> {
    if bytes.len() < HEADER_SIZE {
        Some(DecodeError::TooShort)
    } else if bytes.subrange(0, 4) != magic() {
        Some(DecodeError::MissingMagicNumber)
    } else if bytes[4] % 32 >= SAMPLE_RATE_COUNT {
        Some(DecodeError::UnknownSampleRate)
    } else if (bytes[7] / 8) % 2 != 0 {
        Some(DecodeError::MalformedFormat)
    } else {
        None
    }
}

impl Header {
    /// Whether the header's fields are those that `bytes` holds.
    pub open spec fn is_header_of(self, bytes: Seq<u8>) -> bool
        recommends
            bytes.len() >= HEADER_SIZE,
    {
        &&& self.sample_rate == bytes[4] % 32
        &&& self.sub_protocol == SubProtocol::spec_from_code(bytes[4] as int / 32)
        &&& self.num_samples == bytes[5] + 1
        &&& self.num_channels == bytes[6] + 1
        &&& self.bit_resolution == bytes[7] % 8
        &&& self.codec == Codec::spec_from_code(bytes[7] as int / 16)
        &&& self.stream_name@ == bytes.subrange(8, 24)
        &&& self.frame_number == le_u32(bytes.subrange(24, 28))
    }

    /// Reads the header that opens `bytes`.
    pub fn decode(bytes: &[u8]) -> (decoded: Result<Header, DecodeError>)
        ensures
            match decoded {
                Ok(header) => {
                    &&& decode_error(bytes@).is_none()
                    &&& header.is_header_of(bytes@)
                    &&& header == decoded_header(bytes@)
                },
                Err(error) => decode_error(bytes@) == Some(error),
            },
    {
        if bytes.len() < HEADER_SIZE {
            return Err(DecodeError::TooShort);
        }
        if bytes[0] != 0x56 || bytes[1] != 0x42 || bytes[2] != 0x41 || bytes[3] != 0x4e {
            assert(bytes@.subrange(0, 4)[0] == bytes@[0]);
            assert(bytes@.subrange(0, 4)[1] == bytes@[1]);
            assert(bytes@.subrange(0, 4)[2] == bytes@[2]);
            assert(bytes@.subrange(0, 4)[3] == bytes@[3]);
            return Err(DecodeError::MissingMagicNumber);
        }
        assert(bytes@.subrange(0, 4) =~= magic());
        let rate_and_protocol = bytes[4];
        let sample_rate = rate_and_protocol % 32;
        if sample_rate >= SAMPLE_RATE_COUNT {
            return Err(DecodeError::UnknownSampleRate);
        }
        let format = bytes[7];
        if (format / 8) % 2 != 0 {
            return Err(DecodeError::MalformedFormat);
        }
        let mut name = [0u8; 16];
        let mut i: usize = 0;
        while i < 16
            invariant
                i <= 16,
                bytes@.len() >= HEADER_SIZE,
                forall|k: int| 0 <= k < i ==> name@[k] == bytes@[8 + k],
            decreases 16 - i,
        {
            name[i] = bytes[8 + i];
            i = i + 1;
        }
        assert(name@ =~= bytes@.subrange(8, 24));
        let frame_number = read_u32_le(slice_subrange(bytes, 24, 28));
        let header = Header {
            sample_rate,
            sub_protocol: SubProtocol::from_code(rate_and_protocol / 32),
            num_samples: bytes[5] as u16 + 1,
            num_channels: bytes[6] as u16 + 1,
            bit_resolution: format % 8,
            codec: Codec::from_code(format / 16),
            stream_name: name,
            frame_number,
        };
        proof {
            lemma_decoded_header(bytes@, header);
        }
        Ok(header)
    }
}

/// The header whose fields are those that `bytes` holds.
pub open spec fn decoded_header(bytes: Seq<u8>) -> Header
    recommends
        bytes.len() >= HEADER_SIZE,
{
    choose|header: Header| header.is_header_of(bytes)
}

/// No two headers have the fields that `bytes` holds.
pub proof fn lemma_decoded_header(bytes: Seq<u8>, header: Header)
    requires
        header.is_header_of(bytes),
    ensures
        decoded_header(bytes) == header,
{
    assert(decoded_header(bytes).stream_name =~= header.stream_name);
}

/// The bytes written for an encodable header read back as that header.
pub proof fn lemma_header_round_trip(header: Header)
    requires
        header.encodable(),
    ensures
        header.wire().len() == HEADER_SIZE,
        decode_error(header.wire()).is_none(),
        decoded_header(header.wire()) == header,
{
    let w = header.wire();
    assert(w.subrange(0, 4) =~= magic());
    assert(w.subrange(8, 24) =~= header.stream_name@);
    assert(w.subrange(24, 28) =~= le_bytes_u32(header.frame_number));
    lemma_le_u32_round_trip(header.frame_number);
    lemma_decoded_header(w, header);
}

/// The header read from bytes that open with one writes back as the first 28
/// of them.
pub proof fn lemma_wire_round_trip(bytes: Seq<u8>, header: Header)
    requires
        decode_error(bytes).is_none(),
        header.is_header_of(bytes),
    ensures
        header.encodable(),
        header.wire() == bytes.subrange(0, HEADER_SIZE as int),
{
    let w = header.wire();
    let b = bytes.subrange(0, HEADER_SIZE as int);
    assert(bytes.subrange(0, 4) == magic());
    assert(forall|k: int| 0 <= k < 4 ==> b[k] == bytes.subrange(0, 4)[k]);
    assert(forall|k: int| 8 <= k < 24 ==> b[k] == bytes.subrange(8, 24)[k - 8]);
    crate::endian::lemma_le_bytes_u32_round_trip(bytes.subrange(24, 28));
    assert(forall|k: int| 24 <= k < 28 ==> b[k] == bytes.subrange(24, 28)[k - 24]);
    assert(w =~= b);
}

/// The datagram written for an encodable packet reads back as that packet:
/// the same header, the same payload.
pub proof fn lemma_packet_round_trip(packet: Packet)
    requires
        packet.encodable(),
    ensures
        packet.wire().len() == HEADER_SIZE + packet.data@.len(),
        decode_error(packet.wire()).is_none(),
        decoded_header(packet.wire()) == packet.header,
        packet.wire().skip(HEADER_SIZE as int) == packet.data@,
{
    let header = packet.header;
    let datagram = packet.wire();
    lemma_header_round_trip(header);
    assert(datagram.subrange(0, 4) =~= header.wire().subrange(0, 4));
    assert(datagram.subrange(8, 24) =~= header.wire().subrange(8, 24));
    assert(datagram.subrange(24, 28) =~= header.wire().subrange(24, 28));
    assert(header.wire().subrange(8, 24) =~= header.stream_name@);
    assert(header.wire().subrange(24, 28) =~= le_bytes_u32(header.frame_number));
    lemma_le_u32_round_trip(header.frame_number);
    lemma_decoded_header(datagram, header);
    assert(datagram.skip(HEADER_SIZE as int) =~= packet.data@);
}

/// A header and the raw PCM bytes that follow it.
#[derive(Clone, Debug, PartialEq, Eq)]
pub struct Packet {
    pub header: Header,
    pub data: Vec<u8>,
}

impl Packet {
    pub fn header(&self) -> (header: &Header)
        ensures
            *header == self.header,
    {
        &self.header
    }

    /// Whether the packet can go on the wire: its header is encodable and
    /// the whole datagram is within the protocol's maximum.
    pub open spec fn encodable(self) -> bool {
        self.header.encodable() && HEADER_SIZE + self.data@.len() <= MAX_PACKET_SIZE
    }

    /// The datagram that stands for an encodable packet.
    pub open spec fn wire(self) -> Seq<u8>
        recommends
            self.encodable(),
    {
        self.header.wire() + self.data@
    }

    /// The packet's datagram, or nothing when the packet cannot go on the
    /// wire.
    pub fn encode(&self) -> (bytes: Option<Vec<u8>>)
        ensures
            bytes.is_some() == self.encodable(),
            bytes matches Some(b) ==> b@ == self.wire() && b@.len() <= MAX_PACKET_SIZE,
    {
        if self.data.len() > MAX_PACKET_SIZE - HEADER_SIZE {
            return None;
        }
        match self.header.encode() {
            None => None,
            Some(mut bytes) => {
                bytes.extend_from_slice(self.data.as_slice());
                Some(bytes)
            },
        }
    }

    /// Reads a datagram: the header that opens it, and all bytes after the
    /// header as payload.
    pub fn decode(bytes: &[u8]) -> (decoded: Result<Packet, DecodeError>)
        ensures
            match decoded {
                Ok(packet) => {
                    &&& decode_error(bytes@).is_none()
                    &&& packet.header == decoded_header(bytes@)
                    &&& packet.header.is_header_of(bytes@)
                    &&& packet.data@ == bytes@.skip(HEADER_SIZE as int)
                },
                Err(error) => decode_error(bytes@) == Some(error),
            },
    {
        match Header::decode(bytes) {
            Err(error) => Err(error),
            Ok(header) => {
                let payload = slice_subrange(bytes, HEADER_SIZE, bytes.len());
                let mut data: Vec<u8> = Vec::new();
                data.extend_from_slice(payload);
                assert(data@ =~= bytes@.skip(HEADER_SIZE as int));
                Ok(Packet { header, data })
            },
        }
    }
}


impl DecodeError {
    /// The error in words.
    pub open spec fn spec_message(self) -> Seq<char> {
        match self {
            DecodeError::TooShort => "Datagram shorter than a header"@,
            DecodeError::MissingMagicNumber => "Missing magic number"@,
            DecodeError::UnknownSampleRate => "Unknown sample rate"@,
            DecodeError::MalformedFormat => "Malformed format"@,
        }
    }

    pub fn message(&self) -> (text: &'static str)
        ensures
            text@ == self.spec_message(),
    {
        match self {
            DecodeError::TooShort => "Datagram shorter than a header",
            DecodeError::MissingMagicNumber => "Missing magic number",
            DecodeError::UnknownSampleRate => "Unknown sample rate",
            DecodeError::MalformedFormat => "Malformed format",
        }
    }
}

} // verus!
