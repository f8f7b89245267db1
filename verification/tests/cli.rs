use claudio::args::{BackendArgs, Commands, EmitterArgs, ReceptorArgs};

#[test]
fn test_cli() {}

#[test]
fn commands_carry_their_arguments() {
    let receptor = ReceptorArgs {
        latency: 16,
        stream_name: "Studio".to_string(),
        channels: 2,
        ip_address: "192.168.0.1".to_string(),
        port: 6980,
        device: "default".to_string(),
        device_type: "output".to_string(),
        backend: "default".to_string(),
    };
    let emitter = EmitterArgs {
        stream_name: "Studio".to_string(),
        channels: 2,
        ip_address: "192.168.0.1".to_string(),
        port: 6980,
        device: "default".to_string(),
        device_type: "input".to_string(),
        backend: "default".to_string(),
    };
    assert_eq!(Commands::Receptor(receptor.clone()), Commands::Receptor(receptor));
    assert_ne!(Commands::Emitter(emitter.clone()), Commands::Receptor(ReceptorArgs {
        latency: 0,
        stream_name: emitter.stream_name.clone(),
        channels: emitter.channels,
        ip_address: emitter.ip_address.clone(),
        port: emitter.port,
        device: emitter.device.clone(),
        device_type: emitter.device_type.clone(),
        backend: emitter.backend.clone(),
    }));
    assert_eq!(BackendArgs { backend: "ALSA".to_string() }.backend, "ALSA");
}
