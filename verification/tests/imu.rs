use aimu::imu::{
    acc_half_range, addr_kind, gyr_half_range, AddrKind, Config, Data, Error, IMUs, TriAx, BMI,
};

fn zeros() -> TriAx<i16> {
    TriAx { x: 0, y: 0, z: 0 }
}

#[test]
fn both_legal_addresses_are_accepted() {
    assert_eq!(addr_kind(0x68), Ok(AddrKind::Default));
    assert_eq!(addr_kind(0x69), Ok(AddrKind::Alternative));
}

#[test]
fn any_other_address_is_a_config_error() {
    assert_eq!(addr_kind(0x67), Err(Error::Config));
    assert_eq!(addr_kind(0x70), Err(Error::Config));
    assert_eq!(addr_kind(0), Err(Error::Config));
}

#[test]
fn accel_range_codes() {
    assert_eq!(acc_half_range(0), 2);
    assert_eq!(acc_half_range(1), 4);
    assert_eq!(acc_half_range(2), 8);
    assert_eq!(acc_half_range(3), 16);
}

#[test]
fn gyro_range_codes() {
    assert_eq!(gyr_half_range(0), 2000);
    assert_eq!(gyr_half_range(1), 1000);
    assert_eq!(gyr_half_range(2), 500);
    assert_eq!(gyr_half_range(3), 250);
    assert_eq!(gyr_half_range(4), 125);
}

#[test]
fn tick_widths_per_model() {
    assert_eq!(IMUs::BMI160.tick_width(), 24);
    assert_eq!(IMUs::BMI260.tick_width(), 32);
}

/// Range discovery doubles the half-ranges into full-scale spans.
#[test]
fn init_discovers_spans() {
    let mut s = BMI::new((), IMUs::BMI260);
    assert_eq!(s.init_ranges(0, 0), Ok(()));
    assert_eq!(s.acc_span, 4);
    assert_eq!(s.gyr_span, 4000);
}

#[test]
fn init_rejects_unknown_range_codes() {
    let mut s = BMI::new((), IMUs::BMI260);
    assert_eq!(s.init_ranges(4, 0), Err(Error::Config));
    let mut s = BMI::new((), IMUs::BMI260);
    assert_eq!(s.init_ranges(0, 5), Err(Error::Config));
}

/// The first sample has no valid prior tick and reports dt 0; the second
/// reports the wrapped tick delta times the tick period.
#[test]
fn first_sample_has_zero_dt() {
    let mut s = BMI::new((), IMUs::BMI260);
    s.init_ranges(0, 0).unwrap();
    let d1: Data = s.ingest(zeros(), zeros(), 100);
    assert_eq!(d1.t, 0);
    let d2 = s.ingest(zeros(), zeros(), 132);
    assert_eq!(d2.t, 32 * 39_000);
}

/// On the 24-bit model the tick delta wraps at 2^24.
#[test]
fn narrow_counter_wraps_in_ingest() {
    let mut s = BMI::new((), IMUs::BMI160);
    s.init_ranges(0, 0).unwrap();
    s.ingest(zeros(), zeros(), 0xFF_FFF0);
    let d = s.ingest(zeros(), zeros(), 0x00_0010);
    assert_eq!(d.t, 32 * 39_000);
}

/// A raw reading scales by span / 65536, in micro-units, truncating
/// toward zero: 1000 raw at a 4000 deg/s span is 61035.15625 milli-deg/s.
#[test]
fn calibration_scales_by_span() {
    let mut s = BMI::new((), IMUs::BMI260);
    s.init_ranges(0, 0).unwrap();
    let raw = TriAx { x: 1000, y: -1000, z: 0 };
    let d = s.ingest(zeros(), raw, 0);
    assert_eq!(d.g.x, 61_035_156);
    assert_eq!(d.g.y, -61_035_156);
    assert_eq!(d.g.z, 0);
}

/// The largest raw value lands just under the full-scale half-range.
#[test]
fn full_scale_reading() {
    let mut s = BMI::new((), IMUs::BMI260);
    s.init_ranges(3, 0).unwrap();
    assert_eq!(s.acc_span, 32);
    let raw = TriAx { x: i16::MAX, y: i16::MIN, z: 0 };
    let d = s.ingest(raw, zeros(), 0);
    assert_eq!(d.a.x, 15_999_511);
    assert_eq!(d.a.y, -16_000_000);
}

#[test]
fn default_imu_config() {
    let c = Config::default();
    assert!(matches!(c.model, IMUs::BMI260));
    assert_eq!(c.i2c_dev, "/dev/i2c-2");
    assert_eq!(c.i2c_addr, 0x69);
}
