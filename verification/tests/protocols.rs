use device_protocols::hardware::Endpoint;
use device_protocols::intensity::Intensity;
use device_protocols::lovedistance::LoveDistanceFactory;
use device_protocols::patoo::PatooFactory;

/// A normalized intensity given as a float, held exactly as a fraction over
/// ten thousand.
fn intensity(x: f64) -> Intensity {
    Intensity::new((x * 10000.0).round() as u16, 10000)
}

#[test]
fn test_lovedistance_protocol() {
    let factory = LoveDistanceFactory::default();
    let handshake = factory.handshake_writes();
    assert_eq!(handshake.len(), 2);
    assert_eq!(handshake[0].endpoint, Endpoint::Tx);
    assert_eq!(handshake[0].payload, vec![0xf3, 0, 0]);
    assert!(!handshake[0].require_ack);
    assert_eq!(handshake[1].endpoint, Endpoint::Tx);
    assert_eq!(handshake[1].payload, vec![0xf4, 0x01]);
    assert!(!handshake[1].require_ack);

    let mut device = factory.create(122);
    let writes = device
        .handle_vibrate_cmd(&vec![Some(intensity(0.5))])
        .expect("Test, assuming infallible");
    assert_eq!(writes.len(), 1);
    assert_eq!(writes[0].endpoint, Endpoint::Tx);
    assert_eq!(writes[0].payload, vec![0xf3, 0, 0x3d]);
    assert!(!writes[0].require_ack);

    let writes = device.stop();
    assert_eq!(writes.len(), 1);
    assert_eq!(writes[0].endpoint, Endpoint::Tx);
    assert_eq!(writes[0].payload, vec![0xf3, 0, 0]);
    assert!(!writes[0].require_ack);
}

#[test]
fn test_patoo_protocol_devil() {
    let factory = PatooFactory::default();
    let id = factory
        .identify("PBT821")
        .expect("Test, assuming infallible");
    assert_eq!(id, "PBT");
    let mut device = factory.create(vec![100, 100]);

    // We just vibe 1 so expect 2 writes (mode 0x04)
    let writes = device
        .handle_vibrate_cmd(&vec![Some(intensity(0.5))])
        .expect("Test, assuming infallible");
    assert_eq!(writes.len(), 2);
    assert_eq!(writes[0].endpoint, Endpoint::Tx);
    assert_eq!(writes[0].payload, vec![50]);
    assert!(writes[0].require_ack);
    assert_eq!(writes[1].endpoint, Endpoint::TxMode);
    assert_eq!(writes[1].payload, vec![0x04]);
    assert!(writes[1].require_ack);

    // no-op
    let writes = device
        .handle_vibrate_cmd(&vec![Some(intensity(0.5))])
        .expect("Test, assuming infallible");
    assert!(writes.is_empty());

    // setting second vibe whilst changing vibe 1, 2 writes
    let writes = device
        .handle_vibrate_cmd(&vec![Some(intensity(0.1)), Some(intensity(0.5))])
        .expect("Test, assuming infallible");
    assert_eq!(writes.len(), 2);
    assert_eq!(writes[0].endpoint, Endpoint::Tx);
    assert_eq!(writes[0].payload, vec![10]);
    assert_eq!(writes[1].endpoint, Endpoint::TxMode);
    assert_eq!(writes[1].payload, vec![0x84]);

    // only vibe 2 changed, 2 writes, same intensity byte resent
    let writes = device
        .handle_vibrate_cmd(&vec![Some(intensity(0.1)), Some(intensity(0.9))])
        .expect("Test, assuming infallible");
    assert_eq!(writes.len(), 2);
    assert_eq!(writes[0].endpoint, Endpoint::Tx);
    assert_eq!(writes[0].payload, vec![10]);
    assert_eq!(writes[1].endpoint, Endpoint::TxMode);
    assert_eq!(writes[1].payload, vec![0x84]);

    // turn off vibe 1, 2 writes (mode 0x80)
    let writes = device
        .handle_vibrate_cmd(&vec![Some(intensity(0.0)), Some(intensity(0.9))])
        .expect("Test, assuming infallible");
    assert_eq!(writes.len(), 2);
    assert_eq!(writes[0].endpoint, Endpoint::Tx);
    assert_eq!(writes[0].payload, vec![90]);
    assert_eq!(writes[1].endpoint, Endpoint::TxMode);
    assert_eq!(writes[1].payload, vec![0x80]);

    // stop on both, 2 writes (mode 0)
    let writes = device.stop();
    assert_eq!(writes.len(), 2);
    assert_eq!(writes[0].endpoint, Endpoint::Tx);
    assert_eq!(writes[0].payload, vec![0]);
    assert_eq!(writes[1].endpoint, Endpoint::TxMode);
    assert_eq!(writes[1].payload, vec![0]);
}

#[test]
fn test_patoo_protocol_carrot() {
    let factory = PatooFactory::default();
    let id = factory
        .identify("PTVEA2601")
        .expect("Test, assuming infallible");
    assert_eq!(id, "PTVEA");
    let mut device = factory.create(vec![100]);

    // We just vibe 1 so expect 2 writes (mode 0x04)
    let writes = device
        .handle_vibrate_cmd(&vec![Some(intensity(0.5))])
        .expect("Test, assuming infallible");
    assert_eq!(writes.len(), 2);
    assert_eq!(writes[0].endpoint, Endpoint::Tx);
    assert_eq!(writes[0].payload, vec![50]);
    assert!(writes[0].require_ack);
    assert_eq!(writes[1].endpoint, Endpoint::TxMode);
    assert_eq!(writes[1].payload, vec![0x04]);
    assert!(writes[1].require_ack);

    // no-op
    let writes = device
        .handle_vibrate_cmd(&vec![Some(intensity(0.5))])
        .expect("Test, assuming infallible");
    assert!(writes.is_empty());

    // a second actuator on a one-actuator profile fails with no writes
    assert!(device
        .handle_vibrate_cmd(&vec![Some(intensity(0.1)), Some(intensity(0.5))])
        .is_err());

    // stop on both endpoints, 2 writes (mode 0)
    let writes = device.stop();
    assert_eq!(writes.len(), 2);
    assert_eq!(writes[0].endpoint, Endpoint::Tx);
    assert_eq!(writes[0].payload, vec![0]);
    assert_eq!(writes[1].endpoint, Endpoint::TxMode);
    assert_eq!(writes[1].payload, vec![0]);
}
