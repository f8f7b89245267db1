use claudio::args::EmitterArgs;
use claudio::device::{DeviceSnapshot, HostSnapshot, SampleFormat, StreamConfig};
use claudio::emitter::{emitter, split_block, write_data};
use claudio::emitter_stream::{local_ports, VbanEmitterStream};
use claudio::pcm::decode_samples;
use claudio::protocol::{Header, Packet, MAX_NUM_SAMPLES};
use claudio::stream::{SetupError, StreamError, StreamStatus};
use claudio::supervisor::{SessionAction, SessionEvent, SessionState, Supervisor};

fn block(len: usize) -> Vec<i16> {
    (0..len).map(|i| (i % 30000) as i16 - 15000).collect()
}

fn studio() -> Header {
    Header::new("Studio").expect("the name fits")
}

fn lengths(groups: &[Vec<i16>]) -> Vec<usize> {
    groups.iter().map(|g| g.len()).collect()
}

fn sample_counts(packets: &[Packet]) -> Vec<usize> {
    packets.iter().map(|p| p.data.len() / 2).collect()
}

fn frame_numbers(packets: &[Packet]) -> Vec<u32> {
    packets.iter().map(|p| p.header.frame_number).collect()
}

#[test]
fn block_splits_into_full_groups_and_a_remainder() {
    let input = block(960);
    let groups = split_block(&input, 256);
    assert_eq!(lengths(&groups), vec![256, 256, 256, 192]);
    assert_eq!(groups.concat(), input);
}

#[test]
fn group_count_is_the_quotient_rounded_up() {
    for (len, max, count) in [
        (0usize, 256usize, 0usize),
        (1, 256, 1),
        (255, 256, 1),
        (256, 256, 1),
        (257, 256, 2),
        (512, 256, 2),
        (767, 256, 3),
        (10, 3, 4),
        (9, 3, 3),
        (5, 1, 5),
        (5, 100, 1),
    ] {
        let input = block(len);
        let groups = split_block(&input, max);
        assert_eq!(groups.len(), count);
        assert_eq!(groups.len(), (len + max - 1) / max);
        assert!(groups.iter().all(|g| !g.is_empty() && g.len() <= max));
        assert_eq!(groups.concat(), input);
    }
}

#[test]
fn only_the_last_group_is_short() {
    let groups = split_block(&block(767), 256);
    assert_eq!(lengths(&groups), vec![256, 256, 255]);
    let groups = split_block(&block(10), 4);
    assert_eq!(lengths(&groups), vec![4, 4, 2]);
}

#[test]
fn empty_block_makes_no_packet() {
    let mut frame_count = 5;
    let packets = write_data(&[], &studio(), &mut frame_count);
    assert!(packets.is_empty());
    assert_eq!(frame_count, 5);
}

#[test]
fn stereo_block_of_960_samples_makes_four_packets() {
    let input = block(960);
    let first = 1000u32;
    let mut frame_count = first;
    let packets = write_data(&input, &studio(), &mut frame_count);
    assert_eq!(packets.len(), 4);
    assert_eq!(sample_counts(&packets), vec![256, 256, 256, 192]);
    assert_eq!(frame_numbers(&packets), vec![first, first + 1, first + 2, first + 3]);
    assert_eq!(frame_count, first + 4);
    let per_channel: Vec<u16> = packets.iter().map(|p| p.header.num_samples).collect();
    assert_eq!(per_channel, vec![128, 128, 128, 96]);
    let mut samples = Vec::new();
    for packet in &packets {
        samples.extend(decode_samples(&packet.data));
    }
    assert_eq!(samples, input);
}

#[test]
fn packets_keep_the_template() {
    let mut template = studio();
    template.num_channels = 1;
    template.frame_number = 999;
    let mut frame_count = 7;
    let packets = write_data(&block(300), &template, &mut frame_count);
    assert_eq!(packets.len(), 2);
    for packet in &packets {
        assert_eq!(packet.header.sample_rate, template.sample_rate);
        assert_eq!(packet.header.sub_protocol, template.sub_protocol);
        assert_eq!(packet.header.num_channels, 1);
        assert_eq!(packet.header.bit_resolution, template.bit_resolution);
        assert_eq!(packet.header.codec, template.codec);
        assert_eq!(packet.header.stream_name, template.stream_name);
    }
    assert_eq!(packets[0].header.num_samples, 256);
    assert_eq!(packets[1].header.num_samples, 44);
    assert_eq!(frame_numbers(&packets), vec![7, 8]);
}

#[test]
fn packets_of_whole_frames_go_on_the_wire() {
    let mut frame_count = 0;
    let packets = write_data(&block(960), &studio(), &mut frame_count);
    for packet in &packets {
        let bytes = packet.encode().expect("encodable");
        assert_eq!(bytes.len(), 28 + packet.data.len());
        assert_eq!(
            packet.data.len(),
            packet.header.num_samples as usize * packet.header.num_channels as usize * 2
        );
        assert_eq!(Packet::decode(&bytes).expect("a packet"), *packet);
    }
}

#[test]
fn group_shorter_than_a_frame_holds_no_frame() {
    let mut frame_count = 0;
    let packets = write_data(&block(257), &studio(), &mut frame_count);
    assert_eq!(sample_counts(&packets), vec![256, 1]);
    assert_eq!(packets[1].header.num_samples, 0);
    assert!(packets[1].encode().is_none());
    assert_eq!(frame_count, 2);
}

#[test]
fn header_without_channels_holds_no_frame() {
    let mut template = studio();
    template.num_channels = 0;
    let mut frame_count = 0;
    let packets = write_data(&block(10), &template, &mut frame_count);
    assert_eq!(packets.len(), 1);
    assert_eq!(packets[0].header.num_samples, 0);
    assert!(packets[0].encode().is_none());
}

#[test]
fn frame_numbers_wrap_from_the_maximum_to_zero() {
    let mut frame_count = u32::MAX - 1;
    let packets = write_data(&block(1024), &studio(), &mut frame_count);
    assert_eq!(frame_numbers(&packets), vec![u32::MAX - 1, u32::MAX, 0, 1]);
    assert_eq!(frame_count, 2);
}

#[test]
fn frame_numbers_continue_from_block_to_block() {
    let mut frame_count = 0;
    let first = write_data(&block(512), &studio(), &mut frame_count);
    let second = write_data(&block(100), &studio(), &mut frame_count);
    let third = write_data(&block(257), &studio(), &mut frame_count);
    assert_eq!(frame_numbers(&first), vec![0, 1]);
    assert_eq!(frame_numbers(&second), vec![2]);
    assert_eq!(frame_numbers(&third), vec![3, 4]);
    assert_eq!(frame_count, 5);
}

#[test]
fn largest_group_is_the_protocol_maximum() {
    let mut frame_count = 0;
    let packets = write_data(&block(5000), &studio(), &mut frame_count);
    assert_eq!(packets.len(), 20);
    assert!(packets.iter().all(|p| p.data.len() <= 2 * MAX_NUM_SAMPLES));
    assert_eq!(packets[19].data.len(), 2 * (5000 - 19 * 256));
}

fn config(sample_format: SampleFormat) -> StreamConfig {
    StreamConfig { channels: 2, sample_rate: 48000, sample_format }
}

fn microphone(name: &str, sample_format: SampleFormat) -> DeviceSnapshot {
    DeviceSnapshot {
        name: Some(name.to_string()),
        output_config: None,
        input_config: Some(config(sample_format)),
    }
}

fn host_with(default_input: &str) -> HostSnapshot {
    HostSnapshot {
        default_input: Some(microphone(default_input, SampleFormat::I16)),
        default_output: None,
        devices: Some(vec![
            microphone("Built-in", SampleFormat::I16),
            microphone("USB", SampleFormat::U16),
            microphone("Exotic", SampleFormat::I32),
        ]),
    }
}

fn args(device: &str, stream_name: &str) -> EmitterArgs {
    EmitterArgs {
        stream_name: stream_name.to_string(),
        channels: 2,
        ip_address: "192.168.0.1".to_string(),
        port: 6980,
        device: device.to_string(),
        device_type: "input".to_string(),
        backend: "default".to_string(),
    }
}

#[test]
fn local_ports_follow_the_protocol_port() {
    assert_eq!(local_ports(), vec![6981, 6982, 6983, 6984, 6985, 6986, 6987, 6988, 6989, 6990]);
}

#[test]
fn emitter_needs_a_device_and_a_name_that_fits() {
    let host = host_with("Built-in");
    assert!(VbanEmitterStream::new(&args("default", "Studio"), &host).is_ok());
    assert!(VbanEmitterStream::new(&args("USB", "Studio"), &host).is_ok());
    assert_eq!(
        VbanEmitterStream::new(&args("Missing", "Studio"), &host).err(),
        Some(SetupError::NoInputDevice)
    );
    assert_eq!(
        VbanEmitterStream::new(&args("USB", "a name of more than sixteen bytes"), &host).err(),
        Some(SetupError::StreamNameTooLong)
    );
    assert_eq!(
        VbanEmitterStream::new(&args("Missing", "a name of more than sixteen bytes"), &host).err(),
        Some(SetupError::NoInputDevice)
    );
}

#[test]
fn stream_is_used_only_after_it_is_set_up() {
    let host = host_with("Built-in");
    let mut stream = VbanEmitterStream::new(&args("default", "Studio"), &host).expect("bound");
    assert_eq!(stream.stream(), Err(StreamError::EmitterNotSetUp));
    assert_eq!(stream.play(), Err(StreamError::EmitterNotSetUp));
    assert_eq!(stream.pause(), Err(StreamError::EmitterNotSetUp));
    assert_eq!(stream.setup_stream(), Ok(()));
    assert_eq!(stream.stream(), Ok(StreamStatus::Stopped));
    assert_eq!(stream.play(), Ok(()));
    assert_eq!(stream.stream(), Ok(StreamStatus::Running));
    assert_eq!(stream.play(), Ok(()));
    assert_eq!(stream.stream(), Ok(StreamStatus::Running));
    assert_eq!(stream.pause(), Ok(()));
    assert_eq!(stream.stream(), Ok(StreamStatus::Stopped));
}

#[test]
fn stream_needs_a_supported_sample_format() {
    let host = host_with("Built-in");
    let mut exotic = VbanEmitterStream::new(&args("Exotic", "Studio"), &host).expect("bound");
    assert_eq!(exotic.device_config(), Ok(config(SampleFormat::I32)));
    assert_eq!(exotic.setup_stream(), Err(SetupError::UnsupportedSampleFormat));
    assert_eq!(exotic.stream(), Err(StreamError::EmitterNotSetUp));
    let mut usb = VbanEmitterStream::new(&args("USB", "Studio"), &host).expect("bound");
    assert_eq!(usb.setup_stream(), Ok(()));
}

#[test]
fn emitter_stops_when_the_default_device_changes() {
    let host = host_with("Built-in");
    let following = args("default", "Studio");
    let mut stream = VbanEmitterStream::new(&following, &host).expect("bound");
    stream.setup_stream().expect("set up");
    stream.play().expect("set up");
    assert!(stream.should_run(&following, &host));
    assert_eq!(stream.stream(), Ok(StreamStatus::Running));
    let changed = host_with("USB");
    assert!(!stream.should_run(&following, &changed));
    assert_eq!(stream.stream(), Ok(StreamStatus::Stopped));
}

#[test]
fn emitter_on_a_named_device_ignores_the_default() {
    let host = host_with("Built-in");
    let named = args("Built-in", "Studio");
    let mut stream = VbanEmitterStream::new(&named, &host).expect("bound");
    stream.setup_stream().expect("set up");
    stream.play().expect("set up");
    assert!(stream.should_run(&named, &host_with("USB")));
    assert_eq!(stream.stream(), Ok(StreamStatus::Running));
}

#[test]
fn emitter_stream_writes_numbered_packets() {
    let host = host_with("Built-in");
    let mut configured = args("default", "Studio");
    configured.channels = 1;
    let mut stream = VbanEmitterStream::new(&configured, &host).expect("bound");
    let first = stream.write(&block(300));
    let second = stream.write_u16(&[0, 32768, 65535]);
    assert_eq!(frame_numbers(&first), vec![0, 1]);
    assert_eq!(frame_numbers(&second), vec![2]);
    assert_eq!(second[0].header.num_channels, 1);
    assert_eq!(second[0].header.num_samples, 3);
    assert!(second[0].header.has_stream_name("Studio"));
    assert_eq!(decode_samples(&second[0].data), vec![-32768, 0, 32767]);
}

#[test]
fn emitter_session_is_polled_before_it_sleeps() {
    let configured = args("default", "Studio");
    let mut supervisor = Supervisor::new();
    assert_eq!(supervisor.state, SessionState::Initializing);
    assert_eq!(emitter(&configured, &mut supervisor, SessionEvent::Started), SessionAction::Poll);
    assert_eq!(supervisor.state, SessionState::Running);
    assert_eq!(
        emitter(&configured, &mut supervisor, SessionEvent::Polled { bound_is_default: true }),
        SessionAction::Sleep { millis: 100 }
    );
    assert_eq!(
        emitter(&configured, &mut supervisor, SessionEvent::Polled { bound_is_default: true }),
        SessionAction::Sleep { millis: 100 }
    );
    assert_eq!(
        emitter(&configured, &mut supervisor, SessionEvent::Polled { bound_is_default: false }),
        SessionAction::Release
    );
    assert_eq!(supervisor.state, SessionState::Draining);
}

#[test]
fn emitter_that_lost_its_device_at_once_never_sleeps() {
    let configured = args("default", "Studio");
    let mut supervisor = Supervisor::new();
    let mut actions = vec![emitter(&configured, &mut supervisor, SessionEvent::Started)];
    actions.push(emitter(
        &configured,
        &mut supervisor,
        SessionEvent::Polled { bound_is_default: false },
    ));
    assert_eq!(actions, vec![SessionAction::Poll, SessionAction::Release]);
}

#[test]
fn emitter_without_an_input_device_says_so() {
    let host = HostSnapshot { default_input: None, default_output: None, devices: Some(vec![]) };
    for device in ["default", "Missing"] {
        let error = VbanEmitterStream::new(&args(device, "Studio"), &host).err();
        assert_eq!(error, Some(SetupError::NoInputDevice));
        assert_eq!(SetupError::NoInputDevice.message(), "no input device available");
    }
}

#[test]
fn emitter_stream_hands_out_its_header() {
    let host = host_with("Built-in");
    let mut configured = args("default", "Studio");
    configured.channels = 4;
    let stream = VbanEmitterStream::new(&configured, &host).expect("bound");
    let header = stream.header();
    assert_eq!(header.num_channels, 4);
    assert!(header.has_stream_name("Studio"));
    assert_eq!(header.frame_number, 0);
    assert_eq!(stream.bound_device().name.as_deref(), Some("Built-in"));
    assert!(stream.bound_is_default(&host));
    assert!(!stream.bound_is_default(&host_with("USB")));
}

#[test]
fn whole_frames_make_whole_packets() {
    for channels in [1u16, 2, 4, 8, 256] {
        let mut template = studio();
        template.num_channels = channels;
        for frames in [1usize, 3, 128, 129, 300] {
            let len = frames * channels as usize;
            let mut frame_count = 0;
            let packets = write_data(&block(len), &template, &mut frame_count);
            for packet in &packets {
                assert!(packet.encode().is_some());
                assert_eq!(
                    packet.data.len(),
                    packet.header.num_samples as usize * channels as usize * 2
                );
            }
        }
    }
}

#[test]
fn three_channels_do_not_fit_the_groups() {
    let mut template = studio();
    template.num_channels = 3;
    let mut frame_count = 0;
    let packets = write_data(&block(258), &template, &mut frame_count);
    assert_eq!(sample_counts(&packets), vec![256, 2]);
    assert_eq!(packets[0].header.num_samples, 85);
    assert_eq!(packets[1].header.num_samples, 0);
    assert!(packets[0].encode().is_some());
    assert!(packets[1].encode().is_none());
}
