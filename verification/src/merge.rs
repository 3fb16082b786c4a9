//! Decision core of the asynchronous merge loop: synthesized gyro deltas
//! coexist with a physical device's own absolute-axis reports on the same
//! axes.
//!
//! Two producers feed one consumer. A sampler offers sensor samples
//! through a slot of capacity one — newest sample wins, stale motion is
//! never queued — and a relay forwards every native event of the
//! underlying device. The consumer owns the accumulated position
//! exclusively; there is no other shared state. Its per-event decision is
//! [`MergeState::step`]: a gyro delta moves the accumulated position and
//! is re-emitted as an absolute report; a hardware report on a
//! synthesized axis is authoritative and re-anchors the position at the
//! reported value plus the pending unflushed delta; every other event
//! passes through unmodified. The channels, timers and blocking reads
//! live outside this crate.

use vstd::prelude::*;

verus! {

use crate::fixed::clamp;

/// The two synthesized absolute axes.
#[derive(Clone, Copy, Debug, PartialEq, Eq, Structural)]
pub enum Axis {
    X,
    Y,
}

/// The inclusive value range the output device reports for an absolute
/// axis.
#[derive(Clone, Copy, Debug, PartialEq, Eq, Structural)]
pub struct AxisRange {
    pub min: i32,
    pub max: i32,
}

impl AxisRange {
    /// A range is an ordered pair.
    pub open spec fn wf(self) -> bool {
        self.min <= self.max
    }

    /// Whether `v` lies inside the range.
    pub open spec fn holds(self, v: int) -> bool {
        self.min <= v <= self.max
    }
}

/// `v` clamped into the range.
pub open spec fn clamp_range(v: int, r: AxisRange) -> int {
    clamp(v, r.min as int, r.max as int)
}

/// The absolute pointer position the consumer accumulates. Owned solely
/// by the consumer task; never exceeds the device-reported axis range.
#[derive(Clone, Copy, Debug, PartialEq, Eq, Structural)]
pub struct AccumulatedPosition {
    pub x: i32,
    pub y: i32,
}

/// An event the consumer selects: a synthesized gyro delta from the
/// sampler, an absolute report from the physical device on one of the
/// synthesized axes, or any other native event.
#[derive(Clone, Copy, Debug, PartialEq, Eq, Structural)]
pub enum MergeEvent {
    Gyro { dx: i32, dy: i32 },
    HardwareAbs { axis: Axis, value: i32 },
    Other,
}

/// What the consumer does with an event: emit the (corrected) absolute
/// position on the synthesized axes, or pass the event through verbatim.
#[derive(Clone, Copy, Debug, PartialEq, Eq, Structural)]
pub enum Action {
    EmitAbs { x: i32, y: i32 },
    Forward,
}

/// The consumer's state: the accumulated position, the synthesized delta
/// not yet acknowledged by a hardware report, and the device's axis
/// range.
#[derive(Clone, Copy, Debug, PartialEq, Eq, Structural)]
pub struct MergeState {
    pub pos: AccumulatedPosition,
    /// Unflushed synthesized x motion since the last hardware report on x.
    pub pending_x: i32,
    /// Unflushed synthesized y motion since the last hardware report on y.
    pub pending_y: i32,
    pub range: AxisRange,
}

/// Saturating 32-bit addition.
pub open spec fn sat_add(a: int, b: int) -> int {
    clamp(a + b, i32::MIN as int, i32::MAX as int)
}

impl MergeState {
    /// The position never leaves the device-reported range.
    pub open spec fn wf(self) -> bool {
        &&& self.range.wf()
        &&& self.range.holds(self.pos.x as int)
        &&& self.range.holds(self.pos.y as int)
    }

    /// A fresh consumer: position and pending deltas at zero.
    pub fn new(range: AxisRange) -> (s: MergeState)
        requires
            range.min <= 0 <= range.max,
        ensures
            s.wf(),
            s.pos == (AccumulatedPosition { x: 0, y: 0 }),
            s.pending_x == 0,
            s.pending_y == 0,
            s.range == range,
    {
        MergeState { pos: AccumulatedPosition { x: 0, y: 0 }, pending_x: 0, pending_y: 0, range }
    }

    /// One consumer step.
    ///
    /// A gyro delta adds into the position, saturating at the axis range,
    /// and into the pending delta, saturating at the type's bounds; the
    /// new position is emitted as an absolute report. A hardware report on
    /// a synthesized axis is authoritative: the position on that axis
    /// becomes the reported value plus the pending unflushed delta —
    /// clamped into the range — the pending delta resets to zero, and the
    /// corrected position is emitted. Any other event passes through
    /// unmodified, touching nothing.
    pub fn step(&mut self, e: MergeEvent) -> (a: Action)
        requires
            old(self).wf(),
        ensures
            final(self).wf(),
            final(self).range == old(self).range,
            match e {
                MergeEvent::Gyro { dx, dy } => {
                    &&& final(self).pos.x == clamp_range(
                        old(self).pos.x + dx,
                        old(self).range,
                    )
                    &&& final(self).pos.y == clamp_range(
                        old(self).pos.y + dy,
                        old(self).range,
                    )
                    &&& final(self).pending_x == sat_add(old(self).pending_x as int, dx as int)
                    &&& final(self).pending_y == sat_add(old(self).pending_y as int, dy as int)
                    &&& a == (Action::EmitAbs { x: final(self).pos.x, y: final(self).pos.y })
                },
                MergeEvent::HardwareAbs { axis: Axis::X, value } => {
                    &&& final(self).pos.x == clamp_range(
                        value + old(self).pending_x,
                        old(self).range,
                    )
                    &&& final(self).pos.y == old(self).pos.y
                    &&& final(self).pending_x == 0
                    &&& final(self).pending_y == old(self).pending_y
                    &&& a == (Action::EmitAbs { x: final(self).pos.x, y: final(self).pos.y })
                },
                MergeEvent::HardwareAbs { axis: Axis::Y, value } => {
                    &&& final(self).pos.x == old(self).pos.x
                    &&& final(self).pos.y == clamp_range(
                        value + old(self).pending_y,
                        old(self).range,
                    )
                    &&& final(self).pending_x == old(self).pending_x
                    &&& final(self).pending_y == 0
                    &&& a == (Action::EmitAbs { x: final(self).pos.x, y: final(self).pos.y })
                },
                MergeEvent::Other => {
                    &&& *final(self) == *old(self)
                    &&& a == Action::Forward
                },
            },
    {
        match e {
            MergeEvent::Gyro { dx, dy } => {
                self.pos.x = add_clamped(self.pos.x, dx, self.range);
                self.pos.y = add_clamped(self.pos.y, dy, self.range);
                self.pending_x = add_saturating(self.pending_x, dx);
                self.pending_y = add_saturating(self.pending_y, dy);
                Action::EmitAbs { x: self.pos.x, y: self.pos.y }
            },
            MergeEvent::HardwareAbs { axis, value } => {
                match axis {
                    Axis::X => {
                        self.pos.x = add_clamped(value, self.pending_x, self.range);
                        self.pending_x = 0;
                    },
                    Axis::Y => {
                        self.pos.y = add_clamped(value, self.pending_y, self.range);
                        self.pending_y = 0;
                    },
                }
                Action::EmitAbs { x: self.pos.x, y: self.pos.y }
            },
            MergeEvent::Other => Action::Forward,
        }
    }
}

/// Adds two values and clamps the sum into the axis range.
fn add_clamped(a: i32, b: i32, r: AxisRange) -> (v: i32)
    requires
        r.wf(),
    ensures
        v == clamp_range(a + b, r),
{
    let sum: i64 = a as i64 + b as i64;
    if sum < r.min as i64 {
        r.min
    } else if sum > r.max as i64 {
        r.max
    } else {
        sum as i32
    }
}

/// Saturating 32-bit addition.
fn add_saturating(a: i32, b: i32) -> (v: i32)
    ensures
        v == sat_add(a as int, b as int),
{
    let sum: i64 = a as i64 + b as i64;
    if sum < i32::MIN as i64 {
        i32::MIN
    } else if sum > i32::MAX as i64 {
        i32::MAX
    } else {
        sum as i32
    }
}

/// An authoritative hardware report re-anchors the position at exactly
/// the reported value plus the pending unflushed delta, whenever that sum
/// lies inside the device's axis range: the clamp in [`MergeState::step`]'s
/// contract moves nothing then, so the emitted absolute value is the
/// corrected one and the pending delta resets to zero.
pub proof fn lemma_rebase_exact(value: int, pending: int, r: AxisRange)
    requires
        r.wf(),
        r.holds(value + pending),
    ensures
        clamp_range(value + pending, r) == value + pending,
{
}

/// The sampler's channel of capacity one. Offering a sample to a full
/// slot replaces the held sample — newest sample wins — so a slow
/// consumer never drains stale motion.
pub struct LatestSlot<T> {
    pub slot: Option<T>,
}

impl<T> LatestSlot<T> {
    /// An empty slot.
    pub fn new() -> (s: Self)
        ensures
            s.slot is None,
    {
        LatestSlot { slot: None }
    }

    /// The producer side: the offered sample takes the slot, whether or
    /// not a sample was already waiting. The displaced sample, if any, is
    /// dropped.
    pub fn offer(&mut self, v: T)
        ensures
            final(self).slot == Some(v),
    {
        self.slot = Some(v);
    }

    /// The consumer side: takes the waiting sample, leaving the slot
    /// empty.
    pub fn take(&mut self) -> (r: Option<T>)
        ensures
            r == old(self).slot,
            final(self).slot is None,
    {
        self.slot.take()
    }
}

} // verus!
