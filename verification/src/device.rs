//! Output-device abstraction and the emission decision of the
//! synchronous event loop.
//!
//! A virtual output sink emits relative-axis events; constructing one and
//! talking to the kernel is I/O and lives outside this crate. The loop's
//! decision — pass the current delta to the sink, unchanged, exactly when
//! the trigger is open, drop it when the trigger is closed, never buffer
//! it across a closed trigger — is here, with the payload pinned by
//! contract; the caller performs the sink call on that payload.

use vstd::prelude::*;

pub mod trigger;

verus! {

use crate::motion::PointerDelta;
use trigger::{check_spec, Trigger};

/// Output-device failure modes, all fatal.
#[derive(Clone, Copy, Debug, PartialEq, Eq, Structural)]
pub enum Error {
    /// The device could not be found or created at startup.
    NotFound,
    /// Emitting an event batch failed.
    Emit,
}

/// A virtual output sink: something that can emit a relative 2D motion.
/// Implementations wrap a concrete device.
pub trait VDev: Sized {
    fn new() -> Result<Self, Error>;

    fn update(&mut self, x: i32, y: i32) -> Result<(), Error>;
}

/// Mounting and output configuration.
#[derive(Clone, Debug)]
pub struct Config {
    /// Acute angle between the plane of the keyboard and the rear of the
    /// screen, in degrees.
    pub screen: i32,
    pub trigger: trigger::Config,
}

impl Default for Config {
    /// The default mounting geometry and trigger.
    fn default() -> (d: Self)
        ensures
            d.screen == 45,
            d.trigger.event == trigger::EventCode::AbsZ,
            d.trigger.thresh == 10,
            d.trigger.device matches Some(name) && name@ == "Microsoft X-Box 360 pad"@,
    {
        Config { screen: 45, trigger: trigger::Config::default() }
    }
}

/// The emission decision of the synchronous loop: an open trigger passes
/// the delta on to the sink exactly as computed, a closed trigger drops
/// it — not buffered, so releasing the trigger later cannot produce a
/// motion jump. The caller hands the payload, when there is one, straight
/// to [`VDev::update`].
pub fn gate_decision(trig: &Trigger, d: PointerDelta) -> (r: Option<PointerDelta>)
    ensures
        r == if check_spec(*trig) {
            Some(d)
        } else {
            None::<PointerDelta>
        },
{
    if trig.check() {
        Some(d)
    } else {
        None
    }
}

} // verus!
