use claudio::device::{
    device_kind, Device, DeviceKind, DeviceSnapshot, Devices, Host, HostSnapshot, NoDefaultConfig,
    SampleFormat, StreamConfig,
};
use claudio::stream::{is_supported, StreamStatus, StreamStatusHandle, StreamStatusImpl};
use claudio::text::{bytes_eq, is_default, text_eq};

fn config(channels: u16) -> StreamConfig {
    StreamConfig { channels, sample_rate: 48000, sample_format: SampleFormat::F32 }
}

fn device(name: Option<&str>, output: bool, input: bool) -> DeviceSnapshot {
    DeviceSnapshot {
        name: name.map(|n| n.to_string()),
        output_config: if output { Some(config(2)) } else { None },
        input_config: if input { Some(config(1)) } else { None },
    }
}

fn host() -> HostSnapshot {
    HostSnapshot {
        default_input: Some(device(Some("Mic"), false, true)),
        default_output: Some(device(Some("Speakers"), true, false)),
        devices: Some(vec![
            device(None, true, true),
            device(Some("Speakers"), true, false),
            device(Some("Mic"), false, true),
            device(Some("Duplex"), true, false),
            device(Some("Duplex"), false, true),
            device(Some("default"), true, true),
        ]),
    }
}

#[test]
fn default_selects_the_hosts_default_device() {
    let host = host();
    assert_eq!(host.find_input_device("default"), host.default_input.as_ref());
    assert_eq!(host.find_output_device("default"), host.default_output.as_ref());
    let bare = HostSnapshot { default_input: None, default_output: None, devices: host.devices };
    assert_eq!(bare.find_input_device("default"), None);
    assert_eq!(bare.find_output_device("default"), None);
}

#[test]
fn name_selects_the_first_device_of_that_name() {
    let host = host();
    let listed = host.devices.as_ref().expect("listed");
    assert_eq!(host.find_input_device("Mic"), Some(&listed[2]));
    assert_eq!(host.find_output_device("Mic"), Some(&listed[2]));
    assert_eq!(host.find_input_device("Duplex"), Some(&listed[3]));
    assert_eq!(host.find_output_device("Duplex"), Some(&listed[3]));
    assert_eq!(host.find_input_device("Missing"), None);
    assert_eq!(host.find_input_device(""), None);
}

#[test]
fn failed_listing_finds_no_named_device() {
    let host = HostSnapshot { devices: None, ..host() };
    assert_eq!(host.find_input_device("Mic"), None);
    assert_eq!(host.find_output_device("Speakers"), None);
    assert!(host.find_input_device("default").is_some());
}

#[test]
fn list_is_searched_by_name_and_direction() {
    let listed = host().devices.expect("listed");
    assert_eq!(listed.find_input("Duplex"), Some(&listed[4]));
    assert_eq!(listed.find_output("Duplex"), Some(&listed[3]));
    assert_eq!(listed.find_input("Speakers"), None);
    assert_eq!(listed.find_output("Speakers"), Some(&listed[1]));
    assert_eq!(listed.find_output("Mic"), None);
    assert_eq!(listed.find_input("default"), Some(&listed[5]));
    assert_eq!(Vec::<DeviceSnapshot>::new().find_input("Mic"), None);
}

#[test]
fn output_configuration_is_preferred() {
    assert_eq!(device(Some("a"), true, true).default_config(), Ok(config(2)));
    assert_eq!(device(Some("a"), true, false).default_config(), Ok(config(2)));
    assert_eq!(device(Some("a"), false, true).default_config(), Ok(config(1)));
    assert_eq!(device(Some("a"), false, false).default_config(), Err(NoDefaultConfig));
}

#[test]
fn direction_follows_the_configurations() {
    let duplex = device(Some("a"), true, true);
    assert!(duplex.is_output() && duplex.is_input());
    let none = device(Some("a"), false, false);
    assert!(!none.is_output() && !none.is_input());
    assert_eq!(device_kind(&duplex), DeviceKind::Output);
    assert_eq!(device_kind(&device(None, true, false)), DeviceKind::Output);
    assert_eq!(device_kind(&device(None, false, true)), DeviceKind::Input);
    assert_eq!(device_kind(&none), DeviceKind::Unknown);
}

#[test]
fn devices_are_the_same_by_name() {
    let mic = device(Some("Mic"), false, true);
    assert!(mic.compare_name(&device(Some("Mic"), true, false)));
    assert!(!mic.compare_name(&device(Some("mic"), false, true)));
    assert!(!mic.compare_name(&device(None, false, true)));
    assert!(!device(None, false, true).compare_name(&mic));
    assert!(!device(None, false, true).compare_name(&device(None, false, true)));
}

#[test]
fn default_device_is_known_by_its_name() {
    let host = host();
    assert!(device(Some("Mic"), false, true).is_default_input(&host));
    assert!(!device(Some("Mic"), false, true).is_default_output(&host));
    assert!(device(Some("Speakers"), true, false).is_default_output(&host));
    assert!(!device(Some("Duplex"), true, true).is_default_input(&host));
    let bare = HostSnapshot { default_input: None, default_output: None, devices: None };
    assert!(!device(Some("Mic"), false, true).is_default_input(&bare));
    assert!(!device(Some("Speakers"), true, false).is_default_output(&bare));
}

#[test]
fn duplicate_is_equal() {
    let device_snapshot = device(Some("Mic"), true, true);
    assert_eq!(device_snapshot.duplicate(), device_snapshot);
    let nameless = device(None, false, false);
    assert_eq!(nameless.duplicate(), nameless);
}

#[test]
fn three_sample_formats_are_supported() {
    let supported = [SampleFormat::F32, SampleFormat::I16, SampleFormat::U16];
    let all = [
        SampleFormat::I8,
        SampleFormat::I16,
        SampleFormat::I32,
        SampleFormat::I64,
        SampleFormat::U8,
        SampleFormat::U16,
        SampleFormat::U32,
        SampleFormat::U64,
        SampleFormat::F32,
        SampleFormat::F64,
    ];
    for format in all {
        assert_eq!(is_supported(format), supported.contains(&format));
    }
}

#[test]
fn handle_follows_play_and_pause() {
    let mut handle = StreamStatusHandle::new_handle(StreamStatus::Stopped);
    assert!(!handle.is_running());
    handle.pause();
    assert!(!handle.is_running());
    handle.play();
    assert!(handle.is_running());
    handle.play();
    assert!(handle.is_running());
    handle.pause();
    assert!(!handle.is_running());
    assert!(StreamStatusHandle::new_handle(StreamStatus::Running).is_running());
}

#[test]
fn texts_are_compared_byte_for_byte() {
    assert!(text_eq("Studio", "Studio"));
    assert!(!text_eq("Studio", "studio"));
    assert!(!text_eq("Studio", "Studio "));
    assert!(text_eq("", ""));
    assert!(text_eq("héllo", "héllo"));
    assert!(!text_eq("héllo", "hello"));
    assert!(bytes_eq(&[1, 2, 3], &[1, 2, 3]));
    assert!(!bytes_eq(&[1, 2, 3], &[1, 2]));
    assert!(!bytes_eq(&[1, 2, 3], &[1, 2, 4]));
    assert!(is_default("default"));
    assert!(!is_default("Default"));
    assert!(!is_default(""));
}
