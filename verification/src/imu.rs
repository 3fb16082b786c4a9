//! Sensor acquisition model: calibration from range discovery, and
//! per-sample computation of calibrated readings and a wraparound-safe
//! time delta.
//!
//! A sensor delivers raw 16-bit signed axis readings and a tick counter.
//! Range discovery fixes a full-scale span per unit; a reading in physical
//! units is `raw * span / 65536`, held here in exact integer micro-units.
//! The bus transfer itself is hardware I/O and lives outside this crate;
//! callers hand the raw words to [`BMI::ingest`].

use vstd::prelude::*;

verus! {

use crate::fixed::div_trunc;
use crate::tick::{dt_nanos, wrapped_delta, wrapped_delta_spec};
use vstd::arithmetic::power2::pow2;

/// Sensor failure modes. Communication failures are fatal; configuration
/// failures are fatal at startup.
#[derive(Clone, Copy, Debug, PartialEq, Eq, Structural)]
pub enum Error {
    /// Initialization sequence failed.
    Init,
    /// Bus communication failed.
    Driver,
    /// Invalid device path.
    Path,
    /// Unsupported sensor model.
    Model,
    /// Invalid address or configuration.
    Config,
    /// Unclassified failure.
    Unknown,
}

/// The supported sensor models. Chosen once at startup; each model fixes
/// the width of its tick counter and the period of one tick.
#[derive(Clone, Copy, Debug, PartialEq, Eq, Structural)]
pub enum IMUs {
    BMI160,
    BMI260,
}

/// Nanoseconds per hardware tick, common to both supported models.
pub const SEC_PER_TICK_NS: u32 = 39_000;

impl IMUs {
    /// Bit width of the model's free-running tick counter.
    pub open spec fn tick_width_spec(self) -> u32 {
        match self {
            IMUs::BMI160 => 24,
            IMUs::BMI260 => 32,
        }
    }

    /// Returns the bit width of the model's tick counter.
    pub fn tick_width(&self) -> (w: u32)
        ensures
            w == self.tick_width_spec(),
            1 <= w <= 32,
    {
        match self {
            IMUs::BMI160 => 24,
            IMUs::BMI260 => 32,
        }
    }
}

/// Kind of I2C slave address a sensor answers on.
#[derive(Clone, Copy, Debug, PartialEq, Eq, Structural)]
pub enum AddrKind {
    /// The model's default address, 0x68.
    Default,
    /// The alternative address, 0x69.
    Alternative,
}

/// Classifies a configured I2C address. Exactly the two legal 7-bit
/// addresses are accepted; anything else is a configuration error, fatal
/// at startup.
pub fn addr_kind(addr: u8) -> (r: Result<AddrKind, Error>)
    ensures
        addr == 0x68 ==> r == Ok::<AddrKind, Error>(AddrKind::Default),
        addr == 0x69 ==> r == Ok::<AddrKind, Error>(AddrKind::Alternative),
        addr != 0x68 && addr != 0x69 ==> r == Err::<AddrKind, Error>(Error::Config),
{
    match addr {
        0x68 => Ok(AddrKind::Default),
        0x69 => Ok(AddrKind::Alternative),
        _ => Err(Error::Config),
    }
}

/// A triple of per-axis values.
#[derive(Clone, Copy, Debug, PartialEq, Eq, Structural)]
pub struct TriAx<T> {
    pub x: T,
    pub y: T,
    pub z: T,
}

/// One calibrated sample: acceleration in micro-g per axis, angular rate
/// in micro-degree-per-second per axis, and the time since the previous
/// sample in nanoseconds (zero for the first sample, which has no valid
/// prior tick).
#[derive(Clone, Copy, Debug, PartialEq, Eq, Structural)]
pub struct Data {
    pub a: TriAx<i64>,
    pub g: TriAx<i64>,
    pub t: u64,
}

/// Static configuration of the sensor source.
#[derive(Clone, Debug)]
pub struct Config {
    pub model: IMUs,
    pub i2c_dev: String,
    pub i2c_addr: u8,
}

impl Default for Config {
    /// The default sensor configuration: a BMI260 on the second I2C bus,
    /// answering on the alternative address.
    fn default() -> (d: Self)
        ensures
            d.model == IMUs::BMI260,
            d.i2c_addr == 0x69,
            d.i2c_dev@ == "/dev/i2c-2"@,
    {
        Config { model: IMUs::BMI260, i2c_dev: "/dev/i2c-2".to_owned(), i2c_addr: 0x69 }
    }
}

/// A driver abstraction producing calibrated samples. Implementations
/// wrap a concrete bus driver; `init` must run exactly once before any
/// `data` call.
pub trait IMU: Sized {
    fn init(&mut self) -> Result<(), Error>;

    fn data(&mut self) -> Result<Data, Error>;
}

/// Accelerometer full-scale half-range in g for a range code, i.e.
/// `2^(code + 1)`: the codes select ±2, ±4, ±8 and ±16 g.
pub fn acc_half_range(code: u8) -> (r: u8)
    requires
        code <= 3,
    ensures
        r == pow2((code + 1) as nat),
        2 <= r <= 16,
{
    proof {
        vstd::arithmetic::power2::lemma2_to64();
        vstd::bits::lemma_u8_pow2_no_overflow((code + 1) as nat);
        vstd::bits::lemma_u8_shl_is_mul(1u8, (code + 1) as u8);
    }
    1u8 << (code + 1)
}

/// Gyroscope full-scale half-range in degrees per second for a range
/// code, i.e. `2000 / 2^code`: the codes select ±2000 down to ±125 deg/s.
pub fn gyr_half_range(code: u8) -> (r: u16)
    requires
        code <= 4,
    ensures
        r == 2000int / (pow2(code as nat) as int),
        125 <= r <= 2000,
{
    let shift: u16 = code as u16;
    proof {
        vstd::arithmetic::power2::lemma2_to64();
        vstd::bits::lemma_u16_shr_is_div(2000u16, shift);
        assert(125 <= 2000int / (pow2(code as nat) as int) <= 2000) by (nonlinear_arith)
            requires
                code <= 4,
                pow2(0) == 1 && pow2(1) == 2 && pow2(2) == 4 && pow2(3) == 8 && pow2(4) == 16,
        ;
    }
    2000u16 >> shift
}

/// A reading scaled from raw sensor units to micro-units: the full-scale
/// span covers the 65536 values of a 16-bit signed sample, so one raw unit
/// is `span / 65536` physical units.
pub open spec fn calibrated(raw: int, span: int) -> int {
    div_trunc(raw * span * 1_000_000, 65536)
}

/// Scales one raw 16-bit reading by a full-scale span into micro-units,
/// truncating toward zero.
pub fn calibrate(raw: i16, span: u16) -> (v: i64)
    ensures
        v == calibrated(raw as int, span as int),
{
    proof {
        assert(-32768 * 65535 <= (raw as int) * (span as int) <= 32767 * 65535)
            by (nonlinear_arith);
    }
    let n: i64 = (raw as i64) * (span as i64) * 1_000_000;
    let q = crate::fixed::div_trunc_i128(n as i128, 65536);
    proof {
        crate::fixed::lemma_div_trunc_bounds(n as int, 65536);
    }
    q as i64
}

/// Sensor state shared by the supported models: the bus driver handle,
/// the spans discovered at initialization, and the previous tick.
///
/// `drv` is the concrete driver; this crate never reads it.
pub struct BMI<T> {
    pub drv: T,
    /// Accelerometer full-scale span in g; zero until `init_ranges`.
    pub acc_span: u16,
    /// Gyroscope full-scale span in deg/s; zero until `init_ranges`.
    pub gyr_span: u16,
    /// The previous tick reading.
    pub t: u32,
    /// Whether `t` holds a valid previous tick.
    pub ticked: bool,
    /// Whether `init_ranges` has run.
    pub initialized: bool,
    /// Bit width of the tick counter.
    pub width: u32,
}

impl<T> BMI<T> {
    /// Well-formed state: a legal counter width and, once initialized,
    /// spans inside the models' representable ranges.
    pub open spec fn wf(self) -> bool {
        &&& 1 <= self.width <= 32
        &&& self.initialized ==> 4 <= self.acc_span <= 32
        &&& self.initialized ==> 250 <= self.gyr_span <= 4000
    }

    /// Wraps a bus driver for a sensor model. The state starts
    /// uninitialized and with no valid prior tick.
    pub fn new(drv: T, model: IMUs) -> (s: Self)
        ensures
            s.wf(),
            s == (BMI {
                drv,
                acc_span: 0u16,
                gyr_span: 0u16,
                t: 0u32,
                ticked: false,
                initialized: false,
                width: model.tick_width_spec(),
            }),
    {
        let width = model.tick_width();
        BMI { drv, acc_span: 0, gyr_span: 0, t: 0, ticked: false, initialized: false, width }
    }

    /// Range discovery: fixes both spans from the range codes the sensor
    /// reports. Runs exactly once, before any sample is ingested; the
    /// spans are twice the half-ranges the codes select.
    pub fn init_ranges(&mut self, acc_code: u8, gyr_code: u8) -> (r: Result<(), Error>)
        requires
            !old(self).initialized,
            old(self).wf(),
        ensures
            match r {
                Ok(()) => {
                    &&& acc_code <= 3 && gyr_code <= 4
                    &&& final(self).initialized
                    &&& final(self).acc_span == 2 * pow2((acc_code + 1) as nat)
                    &&& final(self).gyr_span == 2 * (2000int / (pow2(gyr_code as nat) as int))
                },
                Err(e) => {
                    &&& e == Error::Config
                    &&& (acc_code > 3 || gyr_code > 4)
                    &&& *final(self) == *old(self)
                },
            },
            final(self).wf(),
            final(self).drv == old(self).drv,
            final(self).ticked == old(self).ticked,
            final(self).t == old(self).t,
            final(self).width == old(self).width,
            r is Ok <==> (acc_code <= 3 && gyr_code <= 4),
{
        if acc_code > 3 || gyr_code > 4 {
            return Err(Error::Config);
        }
        let acc_half = acc_half_range(acc_code);
        let gyr_half = gyr_half_range(gyr_code);
        self.acc_span = (acc_half as u16) * 2;
        self.gyr_span = gyr_half * 2;
        self.initialized = true;
        Ok(())
    }

    /// Elapsed nanoseconds for a new tick reading against the stored
    /// previous tick, modulo the counter width.
    pub open spec fn dt_spec(self, t: u32) -> int {
        wrapped_delta_spec(self.t, t, self.width) * SEC_PER_TICK_NS
    }

    /// Computes the elapsed nanoseconds from the stored tick to `t`.
    pub fn dt(&self, t: u32) -> (dt: u64)
        requires
            self.wf(),
        ensures
            dt == self.dt_spec(t),
    {
        let delta = wrapped_delta(self.t, t, self.width);
        dt_nanos(delta, SEC_PER_TICK_NS)
    }

    /// Turns one raw reading into a calibrated sample: scales each axis
    /// by the discovered spans and computes the wraparound-safe time
    /// delta from the tick counter. The first sample has no valid prior
    /// tick and reports a zero delta.
    pub fn ingest(&mut self, raw_a: TriAx<i16>, raw_g: TriAx<i16>, t: u32) -> (d: Data)
        requires
            old(self).initialized,
            old(self).wf(),
        ensures
            d.a.x == calibrated(raw_a.x as int, old(self).acc_span as int),
            d.a.y == calibrated(raw_a.y as int, old(self).acc_span as int),
            d.a.z == calibrated(raw_a.z as int, old(self).acc_span as int),
            d.g.x == calibrated(raw_g.x as int, old(self).gyr_span as int),
            d.g.y == calibrated(raw_g.y as int, old(self).gyr_span as int),
            d.g.z == calibrated(raw_g.z as int, old(self).gyr_span as int),
            old(self).ticked ==> d.t == old(self).dt_spec(t),
            !old(self).ticked ==> d.t == 0,
            final(self).t == t,
            final(self).ticked,
            final(self).acc_span == old(self).acc_span,
            final(self).gyr_span == old(self).gyr_span,
            final(self).initialized,
            final(self).width == old(self).width,
            final(self).drv == old(self).drv,
            final(self).wf(),
    {
        let dt: u64 = if self.ticked {
            self.dt(t)
        } else {
            0
        };
        self.t = t;
        self.ticked = true;
        Data {
            a: TriAx {
                x: calibrate(raw_a.x, self.acc_span),
                y: calibrate(raw_a.y, self.acc_span),
                z: calibrate(raw_a.z, self.acc_span),
            },
            g: TriAx {
                x: calibrate(raw_g.x, self.gyr_span),
                y: calibrate(raw_g.y, self.gyr_span),
                z: calibrate(raw_g.z, self.gyr_span),
            },
            t: dt,
        }
    }
}

} // verus!
