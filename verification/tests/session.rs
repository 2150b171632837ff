use hitch::codec::{decode, encode, Envelope, Payload};
use hitch::controller::{map_axis, Controller};
use hitch::vehicle::{ActuatorOp, SessionEvent, VehicleSession};
use hitch::Termination;

fn target_frame(sync: u64, x: i32, roll: i32) -> Vec<u8> {
    encode(&Envelope { sync, payload: Payload::Target { x, roll } })
}

#[test]
fn session_start_resets_actuator() {
    let (session, out) = VehicleSession::start();
    assert!(session.active);
    assert_eq!(out.ops, vec![ActuatorOp::Reset]);
    assert!(out.report.is_none());
    assert!(out.done.is_none());
}

#[test]
fn target_frame_drives_actuator_and_reports() {
    let (mut session, _) = VehicleSession::start();
    let out = session.step(&SessionEvent::Frame(target_frame(9, 1000, 410)));
    assert_eq!(
        out.ops,
        vec![ActuatorOp::Apply { steer_pulse: 410, throttle_pulse: 395 }]
    );
    // The report echoes the command's token and the post-clamp motion.
    assert_eq!(
        out.report,
        Some(Envelope { sync: 9, payload: Payload::Target { x: 395, roll: 410 } })
    );
    assert!(out.done.is_none());
    assert!(session.active);
}

#[test]
fn report_sync_follows_each_command() {
    let (mut session, _) = VehicleSession::start();
    for sync in [1u64, 2, 3, 100, 3] {
        let out = session.step(&SessionEvent::Frame(target_frame(sync, 393, 0)));
        assert_eq!(out.report.unwrap().sync, sync);
    }
}

#[test]
fn ack_frame_changes_nothing() {
    let (mut session, _) = VehicleSession::start();
    let frame = encode(&Envelope { sync: 5, payload: Payload::Ack });
    let out = session.step(&SessionEvent::Frame(frame));
    assert!(out.ops.is_empty());
    assert!(out.report.is_none());
    assert!(out.done.is_none());
    assert!(session.active);
}

#[test]
fn malformed_frame_terminates_with_reset() {
    let (mut session, _) = VehicleSession::start();
    let out = session.step(&SessionEvent::Frame(vec![0xff, 0x00, 0x07]));
    assert_eq!(out.done, Some(Termination::MalformedEnvelope));
    assert_eq!(out.ops.last(), Some(&ActuatorOp::Reset));
    assert!(!session.active);
}

#[test]
fn stream_close_terminates_with_reset() {
    let (mut session, _) = VehicleSession::start();
    session.step(&SessionEvent::Frame(target_frame(1, 400, 0)));
    let out = session.step(&SessionEvent::Closed);
    assert_eq!(out.done, Some(Termination::StreamClosed));
    assert_eq!(out.ops.last(), Some(&ActuatorOp::Reset));
    assert!(!session.active);
}

#[test]
fn actuator_fault_terminates_with_reset() {
    let (mut session, _) = VehicleSession::start();
    let out = session.step(&SessionEvent::Fault);
    assert_eq!(out.done, Some(Termination::ActuatorFault));
    assert_eq!(out.ops.last(), Some(&ActuatorOp::Reset));
    assert!(!session.active);
}

#[test]
fn brake_edge_reported_once_through_session() {
    let (mut session, _) = VehicleSession::start();
    let edges: Vec<bool> = [500, 500, 300, 300, 410]
        .into_iter()
        .map(|x| session.step(&SessionEvent::Frame(target_frame(1, x, 0))).brake_edge)
        .collect();
    assert_eq!(edges, vec![false, false, true, false, false]);
}

#[test]
fn map_axis_exact_values() {
    assert_eq!(map_axis(0), 390);
    assert_eq!(map_axis(255), 440);
    assert_eq!(map_axis(-255), 340);
    assert_eq!(map_axis(-50), 380);
    assert_eq!(map_axis(128), 415);
}

#[test]
fn tick_builds_correlated_target() {
    let mut c = Controller::new();
    let first = c.on_tick(0, 255);
    assert_eq!(first.sync, 1);
    assert_eq!(first.payload, Payload::Target { x: 440, roll: 390 });
    let second = c.on_tick(-255, 0);
    assert_eq!(second.sync, 2);
    assert_eq!(second.payload, Payload::Target { x: 390, roll: 340 });
}

#[test]
fn controller_acknowledges_reports() {
    let c = Controller::new();
    let report = encode(&Envelope { sync: 41, payload: Payload::Target { x: 395, roll: 0 } });
    let reply = c.on_frame(&report).unwrap();
    assert_eq!(reply, Some(Envelope { sync: 41, payload: Payload::Ack }));
}

#[test]
fn controller_ignores_acks() {
    let c = Controller::new();
    let ack = encode(&Envelope { sync: 1, payload: Payload::Ack });
    assert_eq!(c.on_frame(&ack).unwrap(), None);
}

#[test]
fn controller_rejects_malformed_frames() {
    let c = Controller::new();
    assert_eq!(c.on_frame(&vec![0x01, 0x02]), Err(Termination::MalformedEnvelope));
}

#[test]
fn controller_frames_decode_on_the_vehicle() {
    // End to end: a tick's envelope crosses the codec and drives the arbiter.
    let mut c = Controller::new();
    let envelope = c.on_tick(10, 255);
    let bytes = encode(&envelope);
    let (mut session, _) = VehicleSession::start();
    let out = session.step(&SessionEvent::Frame(bytes));
    let report = out.report.unwrap();
    assert_eq!(report.sync, 1);
    // x mapped from the full deflection is 440, clamped to 395; roll passes.
    assert_eq!(report.payload, Payload::Target { x: 395, roll: map_axis(10) });
    // The controller acknowledges the report it gets back.
    let reply = c.on_frame(&encode(&report)).unwrap();
    assert_eq!(reply, Some(Envelope { sync: 1, payload: Payload::Ack }));
}
