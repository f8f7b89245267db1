use claudio::args::ReceptorArgs;
use claudio::emitter::write_data;
use claudio::protocol::Header;
use claudio::receptor::{receive_into, IpAddress, Rejection};
use claudio::ring_buffer::RingBuffer;

fn listener(stream_name: &str) -> ReceptorArgs {
    ReceptorArgs {
        latency: 16,
        stream_name: stream_name.to_string(),
        channels: 2,
        ip_address: "10.0.0.1".to_string(),
        port: 6980,
        device: "default".to_string(),
        device_type: "output".to_string(),
        backend: "default".to_string(),
    }
}

#[test]
fn what_the_emitter_sends_the_receptor_plays() {
    let input: Vec<i16> = (0..960).map(|i| (i * 31 % 2000 - 1000) as i16).collect();
    let template = Header::new("Studio").expect("the name fits");
    let mut frame_count = u32::MAX;
    let packets = write_data(&input, &template, &mut frame_count);
    assert_eq!(frame_count, 3);

    let peer = IpAddress::V4(0x0a00_0001);
    let mut ring = RingBuffer::new(1024);
    for packet in &packets {
        let datagram = packet.encode().expect("encodable");
        assert_eq!(
            receive_into(&listener("Studio"), &Some(peer), &peer, &datagram, &mut ring),
            Ok(packet.data.len() / 2)
        );
    }
    let mut played = vec![7i16; 962];
    ring.fill(&mut played);
    assert_eq!(&played[..960], &input[..]);
    assert_eq!(&played[960..], &[0, 0]);
}

#[test]
fn what_the_emitter_sends_another_stream_ignores() {
    let input: Vec<i16> = (0..960).map(|i| i as i16).collect();
    let template = Header::new("Studio").expect("the name fits");
    let mut frame_count = 0;
    let packets = write_data(&input, &template, &mut frame_count);
    let peer = IpAddress::V6(1);
    let mut ring = RingBuffer::new(1024);
    for packet in &packets {
        let datagram = packet.encode().expect("encodable");
        assert_eq!(
            receive_into(&listener("Lounge"), &None, &peer, &datagram, &mut ring),
            Err(Rejection::WrongStreamName)
        );
    }
    assert!(ring.is_empty());
}
