use hitch::arbiter::{Mode, MotionState, HIGH_CLAMP, LOW_CLAMP};

#[test]
fn forward_run_then_deceleration() {
    // x = [500, 500, 300, 300, 410] from Neutral.
    let mut st = MotionState::new();
    let mut modes = Vec::new();
    let mut outs = Vec::new();
    let mut edges = Vec::new();
    for x in [500, 500, 300, 300, 410] {
        let (cmd, edge) = st.arbitrate(x, 0);
        modes.push(st.mode);
        outs.push(cmd.throttle_pulse);
        edges.push(edge);
    }
    // The two high targets hold Forward; the first sub-threshold sample
    // opens the braking episode; the second leaves it open; the closing
    // target is above the threshold, so Forward is granted again.
    assert_eq!(
        modes,
        vec![Mode::Forward, Mode::Forward, Mode::Braking, Mode::Braking, Mode::Forward]
    );
    // 500 caps at the high clamp; the first 300 is floored at the low
    // clamp; while braking the second 300 passes through; 410 caps again.
    assert_eq!(outs, vec![395, 395, 372, 300, 395]);
    // The brake edge fires exactly once, on the first sub-threshold sample.
    assert_eq!(edges, vec![false, false, true, false, false]);
}

#[test]
fn high_target_caps_at_high_clamp() {
    let mut st = MotionState::new();
    let (cmd, _) = st.arbitrate(1000, 0);
    assert_eq!(cmd.throttle_pulse, HIGH_CLAMP);
    assert_eq!(cmd.throttle_pulse, 395);
}

#[test]
fn low_target_floors_at_low_clamp_outside_braking() {
    let mut st = MotionState::new();
    let (cmd, edge) = st.arbitrate(100, 0);
    assert_eq!(cmd.throttle_pulse, LOW_CLAMP);
    assert_eq!(cmd.throttle_pulse, 372);
    // From Neutral no brake edge fires.
    assert!(!edge);
    assert_eq!(st.mode, Mode::Neutral);
}

#[test]
fn braking_passes_low_targets_through() {
    let mut st = MotionState::new();
    st.arbitrate(400, 0); // Forward
    st.arbitrate(300, 0); // opens braking
    let (cmd, edge) = st.arbitrate(100, 0);
    assert_eq!(cmd.throttle_pulse, 100);
    assert!(!edge);
    assert_eq!(st.mode, Mode::Braking);
}

#[test]
fn brake_edge_fires_once_per_episode() {
    let mut st = MotionState::new();
    st.arbitrate(400, 0); // Forward
    let (_, first) = st.arbitrate(380, 0);
    let (_, second) = st.arbitrate(380, 0);
    let (_, third) = st.arbitrate(380, 0);
    assert!(first);
    assert!(!second);
    assert!(!third);
    // A new forward episode arms the edge again.
    st.arbitrate(400, 0);
    let (_, fourth) = st.arbitrate(380, 0);
    assert!(fourth);
}

#[test]
fn threshold_target_clears_braking_without_forward() {
    let mut st = MotionState::new();
    st.arbitrate(400, 0); // Forward
    st.arbitrate(300, 0); // Braking
    let (cmd, edge) = st.arbitrate(390, 0);
    assert_eq!(st.mode, Mode::Neutral);
    assert_eq!(cmd.throttle_pulse, 390);
    assert!(!edge);
}

#[test]
fn threshold_target_keeps_forward() {
    let mut st = MotionState::new();
    st.arbitrate(400, 0); // Forward
    let (_, edge) = st.arbitrate(390, 0);
    assert_eq!(st.mode, Mode::Forward);
    assert!(!edge);
}

#[test]
fn in_range_target_passes_unchanged() {
    let mut st = MotionState::new();
    let (cmd, _) = st.arbitrate(393, 5);
    assert_eq!(cmd.throttle_pulse, 393);
    assert_eq!(cmd.steer_pulse, 5);
}

#[test]
fn steering_passes_through_unmodified() {
    let mut st = MotionState::new();
    let (cmd, _) = st.arbitrate(300, -42);
    assert_eq!(cmd.steer_pulse, -42);
    let (cmd, _) = st.arbitrate(1000, 999);
    assert_eq!(cmd.steer_pulse, 999);
}
