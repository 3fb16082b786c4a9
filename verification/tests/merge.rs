use aimu::merge::{
    Action, AxisRange, LatestSlot, MergeEvent, MergeState, Axis,
};

fn wide_range() -> AxisRange {
    AxisRange { min: -32768, max: 32767 }
}

/// A hardware absolute report of x=500 arriving while an unflushed dx=7
/// is pending re-anchors the position at 507 and resets the pending
/// delta.
#[test]
fn hardware_report_absorbs_pending_delta() {
    let mut s = MergeState::new(wide_range());
    let a1 = s.step(MergeEvent::Gyro { dx: 7, dy: 0 });
    assert_eq!(a1, Action::EmitAbs { x: 7, y: 0 });
    assert_eq!(s.pending_x, 7);
    let a2 = s.step(MergeEvent::HardwareAbs { axis: Axis::X, value: 500 });
    assert_eq!(s.pos.x, 507);
    assert_eq!(s.pending_x, 0);
    assert_eq!(a2, Action::EmitAbs { x: 507, y: 0 });
}

/// Gyro deltas accumulate into the position and are emitted as absolute
/// reports.
#[test]
fn gyro_deltas_accumulate() {
    let mut s = MergeState::new(wide_range());
    s.step(MergeEvent::Gyro { dx: 10, dy: -4 });
    let a = s.step(MergeEvent::Gyro { dx: 5, dy: -1 });
    assert_eq!(a, Action::EmitAbs { x: 15, y: -5 });
    assert_eq!(s.pending_x, 15);
    assert_eq!(s.pending_y, -5);
}

/// The accumulated position never exceeds the device-reported range,
/// whether moved by a delta or re-anchored by a hardware report.
#[test]
fn position_saturates_at_axis_range() {
    let mut s = MergeState::new(AxisRange { min: -100, max: 100 });
    let a = s.step(MergeEvent::Gyro { dx: 250, dy: -250 });
    assert_eq!(a, Action::EmitAbs { x: 100, y: -100 });
    let b = s.step(MergeEvent::HardwareAbs { axis: Axis::X, value: 90 });
    // 90 plus the pending 250 overshoots and clamps to the range.
    assert_eq!(b, Action::EmitAbs { x: 100, y: -100 });
    assert_eq!(s.pending_x, 0);
}

/// A hardware report on one axis leaves the other axis and its pending
/// delta alone.
#[test]
fn axes_are_independent() {
    let mut s = MergeState::new(wide_range());
    s.step(MergeEvent::Gyro { dx: 3, dy: 8 });
    s.step(MergeEvent::HardwareAbs { axis: Axis::Y, value: 40 });
    assert_eq!(s.pos.x, 3);
    assert_eq!(s.pos.y, 48);
    assert_eq!(s.pending_x, 3);
    assert_eq!(s.pending_y, 0);
}

/// Any other native event passes through untouched and changes no state.
#[test]
fn other_events_pass_through() {
    let mut s = MergeState::new(wide_range());
    s.step(MergeEvent::Gyro { dx: 2, dy: 2 });
    let before = s;
    let a = s.step(MergeEvent::Other);
    assert_eq!(a, Action::Forward);
    assert_eq!(s, before);
}

/// The sampler channel holds one sample: a second sample produced before
/// the first drains replaces it — newest sample wins, nothing queues.
#[test]
fn second_sample_replaces_waiting_sample() {
    let mut c1: LatestSlot<u32> = LatestSlot::new();
    c1.offer(1);
    c1.offer(2);
    assert_eq!(c1.take(), Some(2));
    assert_eq!(c1.take(), None);
}
