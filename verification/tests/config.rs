use aimu::config::{validate, Config, ConfigError};
use aimu::imu::IMUs;
use aimu::motion::Frame;

#[test]
fn default_config_is_valid() {
    let c = Config::default();
    assert_eq!(validate(&c), Ok(()));
    assert!(matches!(c.imu.model, IMUs::BMI260));
    assert_eq!(c.imu.i2c_addr, 0x69);
    assert_eq!(c.device.screen, 45);
    assert_eq!(c.device.trigger.thresh, 10);
    assert_eq!(c.motion.scale, 50);
    assert_eq!(c.motion.freq, 40);
    assert!(matches!(c.motion.frame, Frame::Direct));
}

#[test]
fn bad_address_is_a_mapping_error() {
    let mut c = Config::default();
    c.imu.i2c_addr = 0x42;
    assert_eq!(validate(&c), Err(ConfigError::Mapping));
}

#[test]
fn oversized_scale_is_a_mapping_error() {
    let mut c = Config::default();
    c.motion.scale = aimu::motion::SCALE_BOUND + 1;
    assert_eq!(validate(&c), Err(ConfigError::Mapping));
}

#[test]
fn zero_frequency_is_a_mapping_error() {
    let mut c = Config::default();
    c.motion.freq = 0;
    assert_eq!(validate(&c), Err(ConfigError::Mapping));
}

/// The scale is an arbitrary factor: a negative one is accepted.
#[test]
fn negative_scale_is_valid() {
    let mut c = Config::default();
    c.motion.scale = -50;
    assert_eq!(validate(&c), Ok(()));
    c.motion.scale = -(aimu::motion::SCALE_BOUND + 1);
    assert_eq!(validate(&c), Err(ConfigError::Mapping));
}
