use device_protocols::diff::DiffEngine;
use device_protocols::hardware::{CommandError, Endpoint, IdentificationError};
use device_protocols::intensity::{raw_value, Intensity};
use device_protocols::lovedistance::LoveDistanceFactory;
use device_protocols::patoo::PatooFactory;
use device_protocols::raw_protocol::RawProtocol;

fn intensity(x: f64) -> Intensity {
    Intensity::new((x * 10000.0).round() as u16, 10000)
}

#[test]
fn raw_value_rounds_half_up_and_clamps() {
    // Exact halves round up: 0.5 * 5 = 2.5 -> 3.
    assert_eq!(raw_value(&Intensity::new(1, 2), 5), 3);
    // Below the half rounds down: 1/3 * 100 = 33.33 -> 33.
    assert_eq!(raw_value(&Intensity::new(1, 3), 100), 33);
    // Above the half rounds up: 2/3 * 100 = 66.67 -> 67.
    assert_eq!(raw_value(&Intensity::new(2, 3), 100), 67);
    // The range ends map to the raw range ends.
    assert_eq!(raw_value(&Intensity::new(0, 1), 100), 0);
    assert_eq!(raw_value(&Intensity::new(1, 1), 100), 100);
    // The largest representable resolution still scales exactly.
    assert_eq!(raw_value(&Intensity::new(1, 1), u16::MAX), u16::MAX);
}

#[test]
fn diff_engine_suppresses_only_unchanged_values() {
    let mut engine = DiffEngine::new(vec![100, 100]);
    // First command: both actuators are new, so both emit.
    let diff = engine
        .update(&vec![Some(intensity(0.5)), Some(intensity(0.2))], false)
        .expect("first command must emit");
    assert_eq!(diff, vec![Some(50), Some(20)]);
    // Identical command: everything suppressed, no diff at all.
    assert!(engine
        .update(&vec![Some(intensity(0.5)), Some(intensity(0.2))], false)
        .is_none());
    // One actuator changes: only that slot emits.
    let diff = engine
        .update(&vec![Some(intensity(0.5)), Some(intensity(0.9))], false)
        .expect("changed actuator must emit");
    assert_eq!(diff, vec![None, Some(90)]);
    // An absent slot leaves stored state untouched.
    assert!(engine.update(&vec![None, Some(intensity(0.9))], false).is_none());
    // The exemption forces every present slot through unchanged.
    let diff = engine
        .update(&vec![Some(intensity(0.5)), Some(intensity(0.9))], true)
        .expect("exempted command must emit");
    assert_eq!(diff, vec![Some(50), Some(90)]);
}

#[test]
fn passthrough_always_writes() {
    let raw = RawProtocol::new();
    for _ in 0..2 {
        let writes = raw.handle_raw_write_cmd(Endpoint::Tx, vec![1, 2, 3], true);
        assert_eq!(writes.len(), 1);
        assert_eq!(writes[0].endpoint, Endpoint::Tx);
        assert_eq!(writes[0].payload, vec![1, 2, 3]);
        assert!(writes[0].require_ack);
    }
}

#[test]
fn stop_writes_every_endpoint_even_at_rest() {
    // A device that never moved still gets its stop writes.
    let mut patoo = PatooFactory::default().create(vec![100, 100]);
    let writes = patoo.stop();
    assert_eq!(writes.len(), 2);
    assert_eq!(writes[0].payload, vec![0]);
    assert_eq!(writes[1].payload, vec![0]);
    // And a second stop in a row writes again.
    let writes = patoo.stop();
    assert_eq!(writes.len(), 2);

    let mut love = LoveDistanceFactory::default().create(122);
    let writes = love.stop();
    assert_eq!(writes.len(), 1);
    assert_eq!(writes[0].payload, vec![0xf3, 0, 0]);
    let writes = love.stop();
    assert_eq!(writes.len(), 1);

    // An ordinary zero-intensity vibrate is suppressed once at rest.
    let writes = love
        .handle_vibrate_cmd(&vec![Some(intensity(0.0))])
        .expect("Test, assuming infallible");
    assert!(writes.is_empty());
}

#[test]
fn dual_actuator_encoding_rows() {
    // (0.5, 0) => intensity byte 50, mode byte 0x04.
    let mut device = PatooFactory::default().create(vec![100, 100]);
    let writes = device
        .handle_vibrate_cmd(&vec![Some(intensity(0.5)), Some(intensity(0.0))])
        .expect("Test, assuming infallible");
    assert_eq!(writes[0].payload, vec![50]);
    assert_eq!(writes[1].payload, vec![0x04]);

    // (0.1, 0.5) => intensity byte 10, mode byte 0x84.
    let mut device = PatooFactory::default().create(vec![100, 100]);
    let writes = device
        .handle_vibrate_cmd(&vec![Some(intensity(0.1)), Some(intensity(0.5))])
        .expect("Test, assuming infallible");
    assert_eq!(writes[0].payload, vec![10]);
    assert_eq!(writes[1].payload, vec![0x84]);

    // (0.0, 0.9) => intensity byte 90, mode byte 0x80.
    let mut device = PatooFactory::default().create(vec![100, 100]);
    let writes = device
        .handle_vibrate_cmd(&vec![Some(intensity(0.0)), Some(intensity(0.9))])
        .expect("Test, assuming infallible");
    assert_eq!(writes[0].payload, vec![90]);
    assert_eq!(writes[1].payload, vec![0x80]);

    // Stop => intensity byte 0, mode byte 0x00.
    let writes = device.stop();
    assert_eq!(writes[0].payload, vec![0]);
    assert_eq!(writes[1].payload, vec![0x00]);
}

#[test]
fn single_actuator_fixed_prefix_payload() {
    let mut device = LoveDistanceFactory::default().create(100);
    let writes = device
        .handle_vibrate_cmd(&vec![Some(intensity(0.5))])
        .expect("Test, assuming infallible");
    assert_eq!(writes.len(), 1);
    assert_eq!(writes[0].payload, vec![0xf3, 0x00, 50]);
}

#[test]
fn second_actuator_on_one_actuator_profile_is_rejected() {
    let mut device = LoveDistanceFactory::default().create(100);
    let err = device
        .handle_vibrate_cmd(&vec![Some(intensity(0.5)), Some(intensity(0.5))])
        .expect_err("two slots on a one-actuator profile");
    assert_eq!(err, CommandError::ActuatorIndexOutOfRange);
    // The rejection changed nothing: the next command still emits.
    let writes = device
        .handle_vibrate_cmd(&vec![Some(intensity(0.5))])
        .expect("Test, assuming infallible");
    assert_eq!(writes.len(), 1);
}

#[test]
fn name_prefix_identification() {
    let factory = PatooFactory::default();
    assert_eq!(factory.identify("ABC123").expect("matches"), "ABC");
    assert_eq!(factory.identify("ABC9").expect("matches"), "ABC");
    assert_eq!(factory.identify("ABC").expect("matches"), "ABC");
    assert_eq!(
        factory.identify("9ABC").expect_err("digit-led name"),
        IdentificationError::NoMatchingProfile
    );
    assert_eq!(
        factory.identify("").expect_err("empty name"),
        IdentificationError::NoMatchingProfile
    );
    assert_eq!(factory.protocol_identifier(), "patoo");
}
