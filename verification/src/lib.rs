//! Gyro-aim pointer motion from IMU telemetry.
//!
//! The crate turns calibrated inertial samples into 2D pointer deltas:
//! a wraparound-safe tick clock, a sensor acquisition model, a fixed
//! mounting-geometry frame transform, a debounced trigger gate, and the
//! decision cores of the two event-loop variants (synchronous gating and
//! asynchronous merging with a physical device's absolute reports).
//! Hardware access, floating-point fusion and device construction live in
//! the surrounding application; everything here is verified.

pub mod config;
pub mod device;
pub mod fixed;
pub mod imu;
pub mod merge;
pub mod motion;
pub mod tick;
