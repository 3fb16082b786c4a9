use aimu::device::trigger::{Config as TriggerConfig, EventCode, Trigger};
use aimu::device::{gate_decision, Error, VDev};
use aimu::motion::PointerDelta;

/// A sink that records what it is asked to emit.
struct RecordingSink {
    emitted: Vec<(i32, i32)>,
}

impl VDev for RecordingSink {
    fn new() -> Result<Self, Error> {
        Ok(RecordingSink { emitted: Vec::new() })
    }

    fn update(&mut self, x: i32, y: i32) -> Result<(), Error> {
        self.emitted.push((x, y));
        Ok(())
    }
}

fn gate(thresh: i32) -> Trigger {
    Trigger::new(&TriggerConfig {
        device: Some("pad".to_owned()),
        event: EventCode::AbsZ,
        thresh,
    })
}

/// Runs one loop iteration's emission step: the decision's payload, when
/// there is one, goes straight to the sink.
fn emit_step(sink: &mut RecordingSink, trig: &Trigger, d: PointerDelta) {
    if let Some(p) = gate_decision(trig, d) {
        sink.update(p.x, p.y).unwrap();
    }
}

/// An open trigger passes the delta through unchanged; a closed trigger
/// drops it.
#[test]
fn open_gate_emits_closed_gate_drops() {
    let mut sink = RecordingSink::new().unwrap();
    let mut trig = gate(10);
    let d = PointerDelta { x: 5, y: -3 };

    assert_eq!(gate_decision(&trig, d), None);
    emit_step(&mut sink, &trig, d);
    assert!(sink.emitted.is_empty());

    trig.observe(EventCode::AbsZ, 12);
    assert_eq!(gate_decision(&trig, d), Some(d));
    emit_step(&mut sink, &trig, d);
    assert_eq!(sink.emitted, vec![(5, -3)]);
}

/// Deltas produced while the trigger is closed are not buffered: opening
/// the trigger later emits only the current delta, so there is no motion
/// jump on release.
#[test]
fn closed_gate_buffers_nothing() {
    let mut sink = RecordingSink::new().unwrap();
    let mut trig = gate(10);

    for i in 0..5 {
        let d = PointerDelta { x: 100 + i, y: 0 };
        assert_eq!(gate_decision(&trig, d), None);
        emit_step(&mut sink, &trig, d);
    }
    trig.observe(EventCode::AbsZ, 99);
    let current = PointerDelta { x: 1, y: 1 };
    emit_step(&mut sink, &trig, current);
    assert_eq!(sink.emitted, vec![(1, 1)]);
}
