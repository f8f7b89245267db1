use claudio::pcm::{decode_samples, encode_samples, pcm_from_u16, pcm_to_u16};
use claudio::protocol::{
    Codec, DecodeError, Header, Packet, SubProtocol, BIT_RESOLUTION_SIGNED_16, HEADER_SIZE,
    MAX_NUM_SAMPLES, MAX_PACKET_SIZE, SAMPLE_RATE_48000,
};

fn studio() -> Header {
    Header::new("Studio").expect("the name fits")
}

#[test]
fn new_header_is_stereo_pcm_at_48_khz() {
    let header = studio();
    assert_eq!(header.sample_rate, SAMPLE_RATE_48000);
    assert_eq!(header.sub_protocol, SubProtocol::Audio);
    assert_eq!(header.num_samples as usize, MAX_NUM_SAMPLES);
    assert_eq!(header.num_channels, 2);
    assert_eq!(header.bit_resolution, BIT_RESOLUTION_SIGNED_16);
    assert_eq!(header.codec, Codec::PCM);
    assert_eq!(header.frame_number, 0);
    assert_eq!(&header.stream_name[..6], b"Studio");
    assert_eq!(&header.stream_name[6..], &[0u8; 10]);
    assert_eq!(header.stream_name(), b"Studio".to_vec());
    assert!(header.has_stream_name("Studio"));
    assert!(!header.has_stream_name("Studi"));
    assert!(!header.has_stream_name("studio"));
}

#[test]
fn stream_name_of_sixteen_bytes_fits() {
    let header = Header::new("0123456789abcdef").expect("sixteen bytes fit");
    assert_eq!(header.stream_name(), b"0123456789abcdef".to_vec());
    assert!(Header::new("0123456789abcdefg").is_none());
    assert!(Header::new("").is_some());
}

#[test]
fn stream_name_drops_every_nul() {
    let mut header = studio();
    header.stream_name = *b"a\0b\0\0c\0\0\0\0\0\0\0\0\0d";
    assert_eq!(header.stream_name(), b"abcd".to_vec());
    assert!(header.has_stream_name("abcd"));
}

#[test]
fn header_goes_on_the_wire_field_by_field() {
    let mut header = studio();
    header.num_samples = 128;
    header.frame_number = 0x0102_0304;
    let bytes = header.encode().expect("encodable");
    assert_eq!(bytes.len(), HEADER_SIZE);
    assert_eq!(&bytes[0..4], b"VBAN");
    assert_eq!(bytes[4], 3);
    assert_eq!(bytes[5], 127);
    assert_eq!(bytes[6], 1);
    assert_eq!(bytes[7], 1);
    assert_eq!(&bytes[8..14], b"Studio");
    assert_eq!(&bytes[14..24], &[0u8; 10]);
    assert_eq!(&bytes[24..28], &[0x04, 0x03, 0x02, 0x01]);
}

#[test]
fn tags_share_their_bytes_with_the_indices() {
    let mut header = studio();
    header.sub_protocol = SubProtocol::Text;
    header.codec = Codec::User;
    header.sample_rate = 20;
    header.bit_resolution = 7;
    let bytes = header.encode().expect("encodable");
    assert_eq!(bytes[4], 0x40 + 20);
    assert_eq!(bytes[7], 0xf0 + 7);
    assert_eq!(Header::decode(&bytes), Ok(header));
}

#[test]
fn header_that_does_not_fit_is_not_encoded() {
    let mut header = studio();
    header.num_samples = 0;
    assert!(header.encode().is_none());
    header.num_samples = 257;
    assert!(header.encode().is_none());
    header.num_samples = 256;
    assert!(header.encode().is_some());
    header.num_channels = 0;
    assert!(header.encode().is_none());
    header.num_channels = 257;
    assert!(header.encode().is_none());
    header.num_channels = 256;
    assert!(header.encode().is_some());
    header.sample_rate = 21;
    assert!(header.encode().is_none());
    header.sample_rate = 0;
    header.bit_resolution = 8;
    assert!(header.encode().is_none());
}

#[test]
fn header_round_trip() {
    let mut header = studio();
    header.num_samples = 1;
    header.num_channels = 256;
    header.frame_number = u32::MAX;
    header.sub_protocol = SubProtocol::Service;
    header.codec = Codec::VBCV;
    let bytes = header.encode().expect("encodable");
    assert_eq!(Header::decode(&bytes), Ok(header));
}

#[test]
fn decode_reads_every_field() {
    let mut bytes = vec![0u8; 28];
    bytes[0..4].copy_from_slice(b"VBAN");
    bytes[4] = 0x20 + 16;
    bytes[5] = 255;
    bytes[6] = 7;
    bytes[7] = 0x10 + 2;
    bytes[8..13].copy_from_slice(b"Other");
    bytes[24..28].copy_from_slice(&[0xff, 0x00, 0x00, 0x80]);
    let header = Header::decode(&bytes).expect("a header");
    assert_eq!(header.sample_rate, 16);
    assert_eq!(header.sub_protocol, SubProtocol::Serial);
    assert_eq!(header.num_samples, 256);
    assert_eq!(header.num_channels, 8);
    assert_eq!(header.bit_resolution, 2);
    assert_eq!(header.codec, Codec::VBCA);
    assert_eq!(header.stream_name(), b"Other".to_vec());
    assert_eq!(header.frame_number, 0x8000_00ff);
}

#[test]
fn short_datagram_is_too_short() {
    assert_eq!(Header::decode(&[]), Err(DecodeError::TooShort));
    assert_eq!(Header::decode(b"VBAN"), Err(DecodeError::TooShort));
    assert_eq!(Header::decode(&[0u8; 27]), Err(DecodeError::TooShort));
    assert_eq!(Packet::decode(&[0u8; 27]), Err(DecodeError::TooShort));
}

#[test]
fn datagram_without_magic_number_is_refused() {
    let mut bytes = studio().encode().expect("encodable");
    bytes[3] = b'X';
    assert_eq!(Header::decode(&bytes), Err(DecodeError::MissingMagicNumber));
    assert_eq!(Header::decode(&[0u8; 28]), Err(DecodeError::MissingMagicNumber));
}

#[test]
fn unknown_sample_rate_is_refused() {
    let mut bytes = studio().encode().expect("encodable");
    bytes[4] = 21;
    assert_eq!(Header::decode(&bytes), Err(DecodeError::UnknownSampleRate));
    bytes[4] = 0xe0 + 31;
    assert_eq!(Header::decode(&bytes), Err(DecodeError::UnknownSampleRate));
    bytes[4] = 0xe0 + 20;
    assert!(Header::decode(&bytes).is_ok());
}

#[test]
fn reserved_bit_is_refused() {
    let mut bytes = studio().encode().expect("encodable");
    bytes[7] |= 0x08;
    assert_eq!(Header::decode(&bytes), Err(DecodeError::MalformedFormat));
}

#[test]
fn errors_come_in_the_order_of_the_checks() {
    let mut bytes = vec![0u8; 28];
    bytes[4] = 31;
    bytes[7] = 0x08;
    assert_eq!(Header::decode(&bytes), Err(DecodeError::MissingMagicNumber));
    bytes[0..4].copy_from_slice(b"VBAN");
    assert_eq!(Header::decode(&bytes), Err(DecodeError::UnknownSampleRate));
    bytes[4] = 3;
    assert_eq!(Header::decode(&bytes), Err(DecodeError::MalformedFormat));
}

#[test]
fn tag_codes_round_trip() {
    for code in 0..8u8 {
        assert_eq!(SubProtocol::from_code(code).code(), code);
    }
    for code in 0..16u8 {
        assert_eq!(Codec::from_code(code).code(), code);
    }
    assert_eq!(SubProtocol::from_code(0), SubProtocol::Audio);
    assert_eq!(SubProtocol::from_code(7), SubProtocol::User);
    assert_eq!(SubProtocol::from_code(200), SubProtocol::User);
    assert_eq!(Codec::from_code(0), Codec::PCM);
    assert_eq!(Codec::from_code(15), Codec::User);
    assert_eq!(Codec::from_code(99), Codec::User);
}

#[test]
fn packet_round_trip() {
    let mut header = studio();
    header.num_samples = 2;
    header.frame_number = 77;
    let packet = Packet { header, data: encode_samples(&[1, -1, 256, -32768]) };
    let bytes = packet.encode().expect("encodable");
    assert_eq!(bytes.len(), 28 + 8);
    assert_eq!(&bytes[28..], &[0x01, 0x00, 0xff, 0xff, 0x00, 0x01, 0x00, 0x80]);
    let decoded = Packet::decode(&bytes).expect("a packet");
    assert_eq!(decoded, packet);
    assert_eq!(*decoded.header(), header);
    assert_eq!(decode_samples(&decoded.data), vec![1, -1, 256, -32768]);
}

#[test]
fn packet_is_no_larger_than_the_protocol_allows() {
    let fits = Packet { header: studio(), data: vec![0u8; MAX_PACKET_SIZE - HEADER_SIZE] };
    assert_eq!(fits.encode().expect("fits").len(), MAX_PACKET_SIZE);
    let too_large = Packet { header: studio(), data: vec![0u8; MAX_PACKET_SIZE - HEADER_SIZE + 1] };
    assert!(too_large.encode().is_none());
}

#[test]
fn packet_with_header_alone_has_no_payload() {
    let bytes = studio().encode().expect("encodable");
    let packet = Packet::decode(&bytes).expect("a packet");
    assert!(packet.data.is_empty());
}

#[test]
fn samples_are_little_endian() {
    assert_eq!(encode_samples(&[0x1234]), vec![0x34, 0x12]);
    assert_eq!(encode_samples(&[-2]), vec![0xfe, 0xff]);
    assert_eq!(encode_samples(&[i16::MIN, i16::MAX]), vec![0x00, 0x80, 0xff, 0x7f]);
    assert_eq!(decode_samples(&[0x34, 0x12]), vec![0x1234]);
    assert_eq!(decode_samples(&[0xfe, 0xff]), vec![-2]);
    assert_eq!(decode_samples(&[0x00, 0x80, 0xff, 0x7f]), vec![i16::MIN, i16::MAX]);
    assert_eq!(encode_samples(&[]), Vec::<u8>::new());
}

#[test]
fn odd_trailing_byte_holds_no_sample() {
    assert_eq!(decode_samples(&[0x01, 0x00, 0x7f]), vec![1]);
    assert_eq!(decode_samples(&[0x7f]), Vec::<i16>::new());
    assert_eq!(decode_samples(&[]), Vec::<i16>::new());
}

#[test]
fn sample_round_trip() {
    let samples: Vec<i16> = vec![0, 1, -1, 255, 256, -256, 12345, -12345, i16::MAX, i16::MIN];
    assert_eq!(decode_samples(&encode_samples(&samples)), samples);
}

#[test]
fn unsigned_samples_are_measured_from_the_middle() {
    assert_eq!(pcm_from_u16(&[0, 1, 32767, 32768, 32769, 65535]), vec![
        -32768, -32767, -1, 0, 1, 32767
    ]);
    assert_eq!(pcm_to_u16(&[-32768, -32767, -1, 0, 1, 32767]), vec![
        0, 1, 32767, 32768, 32769, 65535
    ]);
    assert_eq!(pcm_from_u16(&[]), Vec::<i16>::new());
}
