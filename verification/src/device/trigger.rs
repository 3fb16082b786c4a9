//! Trigger gate: a debounced boolean derived from a physical input
//! device's event stream.
//!
//! A background watcher reads the device's events; on each event of the
//! watched kind it stores the event's value — last value wins, with no
//! temporal hysteresis. The non-blocking `check` compares the stored
//! value against a fixed threshold. The blocking read and the thread are
//! hardware I/O and live outside this crate; the decisions — which events
//! update the state, and what the trigger answers — are here.

use vstd::prelude::*;

verus! {

/// The watched event kinds.
#[derive(Clone, Copy, Debug, PartialEq, Eq, Structural)]
pub enum EventCode {
    /// An absolute-axis report on the Z axis.
    AbsZ,
}

/// Trigger configuration: the display name of the physical device to
/// watch (none makes the trigger always open), the watched event kind, and
/// the threshold at which the trigger opens.
#[derive(Clone, Debug)]
pub struct Config {
    pub device: Option<String>,
    pub event: EventCode,
    pub thresh: i32,
}

impl Default for Config {
    /// The default trigger: the Z axis of a well-known pad, opening at 10.
    fn default() -> (d: Self)
        ensures
            d.device matches Some(name) && name@ == "Microsoft X-Box 360 pad"@,
            d.event == EventCode::AbsZ,
            d.thresh == 10,
    {
        Config {
            device: Some("Microsoft X-Box 360 pad".to_owned()),
            event: EventCode::AbsZ,
            thresh: 10,
        }
    }
}

/// The trigger's shared state: the watched event kind, the threshold, the
/// last stored value, and whether a physical device is watched at all.
#[derive(Clone, Copy, Debug, PartialEq, Eq, Structural)]
pub struct Trigger {
    pub event: EventCode,
    pub thresh: i32,
    /// Last value an event of the watched kind carried.
    pub state: i32,
    /// Whether a physical device backs the trigger. An unwatched trigger is
    /// opened once at startup and stays open.
    pub watched: bool,
}

/// The state after the watcher sees an event of kind `kind` carrying
/// `value`: events of the watched kind store their value, all others
/// leave the state alone.
pub open spec fn observed(t: Trigger, kind: EventCode, value: i32) -> Trigger {
    if kind == t.event {
        Trigger { state: value, ..t }
    } else {
        t
    }
}

/// What the trigger answers: whether the stored value has reached the
/// threshold.
pub open spec fn check_spec(t: Trigger) -> bool {
    t.state >= t.thresh
}

impl Trigger {
    /// Builds the trigger's state from its configuration. The device lookup
    /// itself happens outside this crate; the trigger only records whether a
    /// device name was configured. The stored value starts at zero.
    pub fn new(cfg: &Config) -> (t: Trigger)
        ensures
            t.event == cfg.event,
            t.thresh == cfg.thresh,
            t.state == 0,
            t.watched == cfg.device is Some,
    {
        Trigger {
            event: cfg.event,
            thresh: cfg.thresh,
            state: 0,
            watched: match &cfg.device {
                Some(_) => true,
                None => false,
            },
        }
    }

    /// Startup arming: with no device configured there is nothing to
    /// watch, and the trigger is made always-open by storing the threshold
    /// itself. A watched trigger is left untouched.
    pub fn arm(&mut self)
        ensures
            !old(self).watched ==> *final(self) == (Trigger { state: old(self).thresh, ..*old(self) }),
            old(self).watched ==> *final(self) == *old(self),
            check_spec(*final(self)) == if old(self).watched {
                check_spec(*old(self))
            } else {
                true
            },
    {
        if !self.watched {
            self.state = self.thresh;
        }
    }

    /// The watcher's per-event decision: an event of the watched kind
    /// stores its value — last write wins — and any other event is
    /// ignored.
    pub fn observe(&mut self, kind: EventCode, value: i32)
        ensures
            *final(self) == observed(*old(self), kind, value),
    {
        if kind == self.event {
            self.state = value;
        }
    }

    /// Non-blocking check: whether the last stored value has reached the
    /// threshold.
    pub fn check(&self) -> (open: bool)
        ensures
            open == check_spec(*self),
    {
        self.state >= self.thresh
    }
}

/// After the watcher stores `v`, `check` answers exactly `v >= thresh`,
/// and keeps answering it until the next store: `observe` is the only
/// transition that moves the stored value, and an event of any other kind
/// carrying any value moves nothing.
pub proof fn lemma_store_then_check(t: Trigger, v: i32, kind: EventCode, w: i32)
    ensures
        check_spec(observed(t, t.event, v)) == (v >= t.thresh),
        kind != t.event ==> observed(observed(t, t.event, v), kind, w) == observed(t, t.event, v),
{
}

} // verus!
