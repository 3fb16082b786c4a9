use aimu::device::trigger::{Config, EventCode, Trigger};

fn watched_config(thresh: i32) -> Config {
    Config { device: Some("pad".to_owned()), event: EventCode::AbsZ, thresh }
}

/// Threshold 10: storing 5 leaves the trigger closed, 12 opens it, -1
/// closes it again. Last value wins; no hysteresis.
#[test]
fn check_follows_last_stored_value() {
    let mut t = Trigger::new(&watched_config(10));
    t.observe(EventCode::AbsZ, 5);
    assert!(!t.check());
    t.observe(EventCode::AbsZ, 12);
    assert!(t.check());
    t.observe(EventCode::AbsZ, -1);
    assert!(!t.check());
}

/// The stored value opens the trigger exactly at the threshold.
#[test]
fn threshold_is_inclusive() {
    let mut t = Trigger::new(&watched_config(10));
    t.observe(EventCode::AbsZ, 10);
    assert!(t.check());
    t.observe(EventCode::AbsZ, 9);
    assert!(!t.check());
}

/// With no device configured, arming opens the trigger for good.
#[test]
fn unwatched_gate_is_always_open() {
    let cfg = Config { device: None, event: EventCode::AbsZ, thresh: 10 };
    let mut t = Trigger::new(&cfg);
    assert!(!t.check());
    t.arm();
    assert!(t.check());
}

/// Arming a watched gate changes nothing; the watcher decides.
#[test]
fn arming_watched_gate_keeps_it_closed() {
    let mut t = Trigger::new(&watched_config(10));
    t.arm();
    assert!(!t.check());
}

#[test]
fn default_trigger_config() {
    let c = Config::default();
    assert_eq!(c.device.as_deref(), Some("Microsoft X-Box 360 pad"));
    assert!(matches!(c.event, EventCode::AbsZ));
    assert_eq!(c.thresh, 10);
}

/// A freshly built gate starts closed for any positive threshold.
#[test]
fn new_gate_starts_closed() {
    let t = Trigger::new(&watched_config(1));
    assert!(!t.check());
}
