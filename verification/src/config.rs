//! Static configuration assembled at startup. Loading it from the
//! command line or a file is glue outside this crate; the defaults and
//! their invariants are here.

use vstd::prelude::*;

verus! {

use crate::device;
use crate::imu;
use crate::motion;

/// Configuration failure modes, fatal at startup.
#[derive(Clone, Copy, Debug, PartialEq, Eq, Structural)]
pub enum ConfigError {
    /// Command-line arguments could not be mapped onto the configuration.
    Mapping,
    /// Unclassified configuration failure.
    Unknown,
}

/// The whole static configuration: sensor source, devices, and motion
/// processing. Immutable after startup.
#[derive(Clone, Debug)]
pub struct Config {
    pub imu: imu::Config,
    pub device: device::Config,
    pub motion: motion::Config,
}

impl Default for Config {
    /// The default deployment: a BMI260 on the second bus at the
    /// alternative address, a 45-degree mount, the stock trigger, and
    /// motion at scale 50 and 40 Hz in the direct frame.
    fn default() -> (d: Self)
        ensures
            d.imu.model == imu::IMUs::BMI260,
            d.imu.i2c_addr == 0x69,
            d.device.screen == 45,
            d.device.trigger.thresh == 10,
            d.motion.scale == 50,
            d.motion.freq == 40,
            d.motion.frame == motion::Frame::Direct,
            d.motion.screen == 45,
    {
        Config {
            imu: imu::Config::default(),
            device: device::Config::default(),
            motion: motion::Config::default(),
        }
    }
}

/// Whether a configuration is acceptable at startup: the I2C address is
/// one of the two legal values and the motion parameters sit inside the
/// ranges the transform accepts. The scale is an arbitrary factor and
/// may be negative.
pub open spec fn valid_config(c: Config) -> bool {
    &&& (c.imu.i2c_addr == 0x68 || c.imu.i2c_addr == 0x69)
    &&& -motion::SCALE_BOUND <= c.motion.scale <= motion::SCALE_BOUND
    &&& c.motion.freq >= 1
}

/// Startup validation: accepts exactly the configurations
/// [`valid_config`] describes and rejects everything else as a mapping
/// error, fatal at startup.
pub fn validate(c: &Config) -> (r: Result<(), ConfigError>)
    ensures
        r is Ok <==> valid_config(*c),
        r is Err ==> r == Err::<(), ConfigError>(ConfigError::Mapping),
{
    if (c.imu.i2c_addr == 0x68 || c.imu.i2c_addr == 0x69) && (-motion::SCALE_BOUND
        <= c.motion.scale && c.motion.scale <= motion::SCALE_BOUND) && c.motion.freq >= 1 {
        Ok(())
    } else {
        Err(ConfigError::Mapping)
    }
}

} // verus!
