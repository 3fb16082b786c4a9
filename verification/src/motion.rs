//! Frame transform: maps a 3D angular-rate vector to an integer 2D
//! pointer delta under a fixed mounting geometry.
//!
//! The transform matrix is the product `M = R_base · R_mount`, built once
//! at construction and reused for every sample. `R_base` remaps sensor
//! axes to screen axes — x unchanged, y and z inverted, for a mount
//! turned 180 degrees. `R_mount` rotates about the screen-normal axis by
//! the screen angle less a quarter turn and projects away the third
//! component; only the sine/cosine pair of that angle enters it, handed
//! in as a fixed-point pair scaled by [`FIXED_ONE`] and cached — never
//! recomputed per sample. Scale and time step are applied per call, not
//! baked into the matrix.
//!
//! Applying `M` to the rate vector `g` gives
//! `dx = (g.x * cos + g.z * sin) * scale * dt` and
//! `dy = -g.y * scale * dt`, truncated toward zero.

use vstd::prelude::*;

verus! {

use crate::fixed::{
    clamp, clamp_to_i32, div_trunc, div_trunc_i128, lemma_div_trunc_bounds, lemma_div_trunc_exact,
    lemma_div_trunc_scaled,
};
use crate::imu::TriAx;

/// The fixed-point unit: sine/cosine values and matrix entries are
/// scaled by this.
pub const FIXED_ONE: i32 = 1_000_000;

/// Largest angular-rate magnitude the transform accepts, in
/// micro-degrees per second per axis.
pub const RATE_BOUND: i64 = 16_000_000_000;

/// Largest scale factor the transform accepts.
pub const SCALE_BOUND: i64 = 1_000_000_000;

/// Largest time step the transform accepts, in nanoseconds.
pub const DT_NS_BOUND: u64 = 1_000_000_000_000;

/// Denominator of the fixed-point product: micro-degrees per second
/// times a matrix entry in units of `FIXED_ONE` times nanoseconds carry
/// a factor of 10^21 against whole units.
pub const APPLY_DENOM: i128 = 1_000_000_000_000_000_000_000;

/// Frame of reference for the rate vector handed to the transform:
/// the raw calibrated gyro, the fusion library's locally-leveled gyro,
/// or its player-space gyro.
#[derive(Clone, Copy, Debug, PartialEq, Eq, Structural)]
pub enum Frame {
    Direct,
    Local,
    Player,
}

/// An integer 2D pointer motion.
#[derive(Clone, Copy, Debug, PartialEq, Eq, Structural)]
pub struct PointerDelta {
    pub x: i32,
    pub y: i32,
}

/// Motion-processing configuration.
#[derive(Clone, Copy, Debug)]
pub struct Config {
    /// Arbitrary scale factor applied to every delta.
    pub scale: i64,
    /// Update frequency in Hz.
    pub freq: u32,
    /// Frame of reference, fixed at startup.
    pub frame: Frame,
    /// Acute angle between the plane of the keyboard and the rear of the
    /// screen, in degrees.
    pub screen: i32,
}

impl Default for Config {
    /// The default motion configuration.
    fn default() -> (d: Self)
        ensures
            d.scale == 50,
            d.freq == 40,
            d.frame == Frame::Direct,
            d.screen == 45,
    {
        Config { scale: 50, freq: 40, frame: Frame::Direct, screen: 45 }
    }
}

/// A 3x3 fixed-point matrix, entries scaled by [`FIXED_ONE`], stored as
/// rows. Rows map sensor axes to screen axes.
#[derive(Clone, Copy, Debug, PartialEq, Eq, Structural)]
pub struct Mat3 {
    pub rx: TriAx<i32>,
    pub ry: TriAx<i32>,
    pub rz: TriAx<i32>,
}

/// Whether every component of a row stays inside one fixed-point unit.
pub open spec fn row_in_unit(r: TriAx<i32>) -> bool {
    &&& -FIXED_ONE <= r.x <= FIXED_ONE
    &&& -FIXED_ONE <= r.y <= FIXED_ONE
    &&& -FIXED_ONE <= r.z <= FIXED_ONE
}

/// One row of a fixed-point matrix product: the dot products of row `r`
/// of the left factor with the three columns of the right one, whose
/// rows are `(bx, by, bz)`; each entry is truncated back to the
/// fixed-point scale.
pub open spec fn mul_row(r: TriAx<i32>, bx: TriAx<i32>, by: TriAx<i32>, bz: TriAx<i32>) -> TriAx<
    int,
> {
    TriAx {
        x: div_trunc(r.x * bx.x + r.y * by.x + r.z * bz.x, FIXED_ONE as int),
        y: div_trunc(r.x * bx.y + r.y * by.y + r.z * bz.y, FIXED_ONE as int),
        z: div_trunc(r.x * bx.z + r.y * by.z + r.z * bz.z, FIXED_ONE as int),
    }
}

impl Mat3 {
    /// Every entry stays inside one fixed-point unit: the matrices here
    /// are products of rotations, reflections and a projection.
    pub open spec fn wf(self) -> bool {
        row_in_unit(self.rx) && row_in_unit(self.ry) && row_in_unit(self.rz)
    }

    /// The base rotation remapping sensor axes to screen axes: x
    /// unchanged, y and z inverted — the mount sits turned 180 degrees.
    pub fn base() -> (m: Mat3)
        ensures
            m == (Mat3 {
                rx: TriAx { x: FIXED_ONE, y: 0i32, z: 0i32 },
                ry: TriAx { x: 0i32, y: (-FIXED_ONE) as i32, z: 0i32 },
                rz: TriAx { x: 0i32, y: 0i32, z: (-FIXED_ONE) as i32 },
            }),
            m.wf(),
    {
        Mat3 {
            rx: TriAx { x: FIXED_ONE, y: 0, z: 0 },
            ry: TriAx { x: 0, y: -FIXED_ONE, z: 0 },
            rz: TriAx { x: 0, y: 0, z: -FIXED_ONE },
        }
    }

    /// The mount rotation about the screen-normal axis, from the cached
    /// fixed-point sine/cosine pair of the screen angle less a quarter
    /// turn. Its third row is zero: the rotated z component never reaches
    /// the screen plane.
    pub fn mount(sin_q: i32, cos_q: i32) -> (m: Mat3)
        requires
            -FIXED_ONE <= sin_q <= FIXED_ONE,
            -FIXED_ONE <= cos_q <= FIXED_ONE,
        ensures
            m == (Mat3 {
                rx: TriAx { x: cos_q, y: 0i32, z: sin_q },
                ry: TriAx { x: 0i32, y: FIXED_ONE, z: 0i32 },
                rz: TriAx { x: 0i32, y: 0i32, z: 0i32 },
            }),
            m.wf(),
    {
        Mat3 {
            rx: TriAx { x: cos_q, y: 0, z: sin_q },
            ry: TriAx { x: 0, y: FIXED_ONE, z: 0 },
            rz: TriAx { x: 0, y: 0, z: 0 },
        }
    }

    /// Fixed-point matrix product, each entry truncated toward zero. An
    /// entry of the product of two unit-bounded matrices can reach three
    /// units, so well-formedness of the product is the caller's to
    /// establish from the concrete factors.
    pub fn mul(&self, other: &Mat3) -> (m: Mat3)
        requires
            self.wf(),
            other.wf(),
        ensures
            m.rx.x == mul_row(self.rx, other.rx, other.ry, other.rz).x,
            m.rx.y == mul_row(self.rx, other.rx, other.ry, other.rz).y,
            m.rx.z == mul_row(self.rx, other.rx, other.ry, other.rz).z,
            m.ry.x == mul_row(self.ry, other.rx, other.ry, other.rz).x,
            m.ry.y == mul_row(self.ry, other.rx, other.ry, other.rz).y,
            m.ry.z == mul_row(self.ry, other.rx, other.ry, other.rz).z,
            m.rz.x == mul_row(self.rz, other.rx, other.ry, other.rz).x,
            m.rz.y == mul_row(self.rz, other.rx, other.ry, other.rz).y,
            m.rz.z == mul_row(self.rz, other.rx, other.ry, other.rz).z,
    {
        Mat3 {
            rx: mul_row_exec(self.rx, other.rx, other.ry, other.rz),
            ry: mul_row_exec(self.ry, other.rx, other.ry, other.rz),
            rz: mul_row_exec(self.rz, other.rx, other.ry, other.rz),
        }
    }
}

/// One entry of the fixed-point product: a three-term dot product
/// truncated back to the fixed-point scale.
fn mul_entry(a1: i32, b1: i32, a2: i32, b2: i32, a3: i32, b3: i32) -> (v: i32)
    requires
        -FIXED_ONE <= a1 <= FIXED_ONE,
        -FIXED_ONE <= b1 <= FIXED_ONE,
        -FIXED_ONE <= a2 <= FIXED_ONE,
        -FIXED_ONE <= b2 <= FIXED_ONE,
        -FIXED_ONE <= a3 <= FIXED_ONE,
        -FIXED_ONE <= b3 <= FIXED_ONE,
    ensures
        v == div_trunc(a1 * b1 + a2 * b2 + a3 * b3, FIXED_ONE as int),
{
    proof {
        assert(-1_000_000_000_000 <= (a1 as int) * b1 <= 1_000_000_000_000) by (nonlinear_arith)
            requires
                -1_000_000 <= a1 <= 1_000_000,
                -1_000_000 <= b1 <= 1_000_000,
        ;
        assert(-1_000_000_000_000 <= (a2 as int) * b2 <= 1_000_000_000_000) by (nonlinear_arith)
            requires
                -1_000_000 <= a2 <= 1_000_000,
                -1_000_000 <= b2 <= 1_000_000,
        ;
        assert(-1_000_000_000_000 <= (a3 as int) * b3 <= 1_000_000_000_000) by (nonlinear_arith)
            requires
                -1_000_000 <= a3 <= 1_000_000,
                -1_000_000 <= b3 <= 1_000_000,
        ;
    }
    let dot: i64 = (a1 as i64) * (b1 as i64) + (a2 as i64) * (b2 as i64) + (a3 as i64) * (
    b3 as i64);
    let q = div_trunc_i128(dot as i128, FIXED_ONE as i128);
    proof {
        lemma_div_trunc_bounds(dot as int, FIXED_ONE as int);
    }
    q as i32
}

/// One row of the fixed-point product: row `r` of the left factor
/// against the three columns of the right one, given by its rows.
fn mul_row_exec(r: TriAx<i32>, bx: TriAx<i32>, by: TriAx<i32>, bz: TriAx<i32>) -> (v: TriAx<i32>)
    requires
        row_in_unit(r),
        row_in_unit(bx),
        row_in_unit(by),
        row_in_unit(bz),
    ensures
        v.x == mul_row(r, bx, by, bz).x,
        v.y == mul_row(r, bx, by, bz).y,
        v.z == mul_row(r, bx, by, bz).z,
{
    TriAx {
        x: mul_entry(r.x, bx.x, r.y, by.x, r.z, bz.x),
        y: mul_entry(r.x, bx.y, r.y, by.y, r.z, bz.y),
        z: mul_entry(r.x, bx.z, r.y, by.z, r.z, bz.z),
    }
}

/// The frame transform: the matrix built once from the mounting
/// geometry, and the frame whose rate vector it is meant for.
pub struct Motion {
    /// Frame of reference whose rate vector feeds [`Motion::transformation`].
    pub frame: Frame,
    /// The cached product `R_base · R_mount`.
    pub transform: Mat3,
}

/// Whether a rate vector is inside the range the transform accepts.
pub open spec fn rate_in_range(g: TriAx<i64>) -> bool {
    &&& -RATE_BOUND <= g.x <= RATE_BOUND
    &&& -RATE_BOUND <= g.y <= RATE_BOUND
    &&& -RATE_BOUND <= g.z <= RATE_BOUND
}

/// The dot product of a rate vector with a matrix row.
pub open spec fn row_dot(g: TriAx<i64>, r: TriAx<i32>) -> int {
    g.x * r.x + g.y * r.y + g.z * r.z
}

impl Motion {
    pub open spec fn wf(self) -> bool {
        self.transform.wf()
    }

    /// Builds the transform for a frame and a mounting angle, the latter
    /// given as the fixed-point sine/cosine pair of the screen angle less
    /// a quarter turn. The matrix product is computed here, once; only
    /// scale and time step are applied per sample.
    pub fn new(frame: Frame, sin_q: i32, cos_q: i32) -> (m: Motion)
        requires
            -FIXED_ONE <= sin_q <= FIXED_ONE,
            -FIXED_ONE <= cos_q <= FIXED_ONE,
        ensures
            m.wf(),
            m.frame == frame,
            m.transform == (Mat3 {
                rx: TriAx { x: cos_q, y: 0i32, z: sin_q },
                ry: TriAx { x: 0i32, y: (-FIXED_ONE) as i32, z: 0i32 },
                rz: TriAx { x: 0i32, y: 0i32, z: 0i32 },
            }),
    {
        let base = Mat3::base();
        let mount = Mat3::mount(sin_q, cos_q);
        let transform = base.mul(&mount);
        proof {
            lemma_base_mount_product(sin_q as int, cos_q as int);
        }
        Motion { frame, transform }
    }

    /// Numerator of the screen-x component before division: the x row of
    /// the cached matrix applied to `g`, times `scale * dt`.
    pub open spec fn x_numer(self, g: TriAx<i64>, scale: int, dt_ns: int) -> int {
        row_dot(g, self.transform.rx) * scale * dt_ns
    }

    /// Numerator of the screen-y component.
    pub open spec fn y_numer(self, g: TriAx<i64>, scale: int, dt_ns: int) -> int {
        row_dot(g, self.transform.ry) * scale * dt_ns
    }

    /// The x component of the applied transform: the numerator divided
    /// by the fixed-point denominator, truncated toward zero.
    pub open spec fn applied_x(self, g: TriAx<i64>, scale: int, dt_ns: int) -> int {
        div_trunc(self.x_numer(g, scale, dt_ns), APPLY_DENOM as int)
    }

    /// The y component of the applied transform.
    pub open spec fn applied_y(self, g: TriAx<i64>, scale: int, dt_ns: int) -> int {
        div_trunc(self.y_numer(g, scale, dt_ns), APPLY_DENOM as int)
    }

    /// Applies the cached matrix to a rate vector in micro-degrees per
    /// second over a time step of `dt_ns` nanoseconds, scaled by
    /// `scale`, and keeps the resulting x and y components. Truncation
    /// is toward zero, not round-to-nearest; the narrowing to the i32
    /// delta saturates at the type's bounds.
    pub fn transformation(&self, g: &TriAx<i64>, dt_ns: u64, scale: i64) -> (d: PointerDelta)
        requires
            self.wf(),
            rate_in_range(*g),
            -SCALE_BOUND <= scale <= SCALE_BOUND,
            dt_ns <= DT_NS_BOUND,
        ensures
            d.x == clamp(
                self.applied_x(*g, scale as int, dt_ns as int),
                i32::MIN as int,
                i32::MAX as int,
            ),
            d.y == clamp(
                self.applied_y(*g, scale as int, dt_ns as int),
                i32::MIN as int,
                i32::MAX as int,
            ),
    {
        let base_x: i128 = row_dot_exec(g, &self.transform.rx) as i128;
        let base_y: i128 = row_dot_exec(g, &self.transform.ry) as i128;
        let sc = scale as i128;
        let dt = dt_ns as i128;
        proof {
            lemma_numer_bound(base_x as int, sc as int, dt as int);
            lemma_numer_bound(base_y as int, sc as int, dt as int);
        }
        let numer_x: i128 = base_x * sc * dt;
        let numer_y: i128 = base_y * sc * dt;
        let qx = div_trunc_i128(numer_x, APPLY_DENOM);
        let qy = div_trunc_i128(numer_y, APPLY_DENOM);
        PointerDelta { x: clamp_to_i32(qx), y: clamp_to_i32(qy) }
    }

    /// Chooses the rate vector the configured frame feeds to the
    /// transform: the raw calibrated gyro, the fusion library's
    /// locally-leveled gyro, or its player-space gyro (which that library
    /// computes with its fixed internal relax ratio).
    pub fn select_rate(&self, direct: &TriAx<i64>, local: &TriAx<i64>, player: &TriAx<i64>) -> (r:
        TriAx<i64>)
        ensures
            r == match self.frame {
                Frame::Direct => *direct,
                Frame::Local => *local,
                Frame::Player => *player,
            },
    {
        match self.frame {
            Frame::Direct => *direct,
            Frame::Local => *local,
            Frame::Player => *player,
        }
    }
}

/// The dot product of a bounded rate vector with a unit-bounded row.
fn row_dot_exec(g: &TriAx<i64>, r: &TriAx<i32>) -> (v: i64)
    requires
        rate_in_range(*g),
        row_in_unit(*r),
    ensures
        v == row_dot(*g, *r),
        -48_000_000_000_000_000 <= v <= 48_000_000_000_000_000,
{
    proof {
        assert(-16_000_000_000_000_000 <= (g.x as int) * r.x <= 16_000_000_000_000_000)
            by (nonlinear_arith)
            requires
                -16_000_000_000 <= g.x <= 16_000_000_000,
                -1_000_000 <= r.x <= 1_000_000,
        ;
        assert(-16_000_000_000_000_000 <= (g.y as int) * r.y <= 16_000_000_000_000_000)
            by (nonlinear_arith)
            requires
                -16_000_000_000 <= g.y <= 16_000_000_000,
                -1_000_000 <= r.y <= 1_000_000,
        ;
        assert(-16_000_000_000_000_000 <= (g.z as int) * r.z <= 16_000_000_000_000_000)
            by (nonlinear_arith)
            requires
                -16_000_000_000 <= g.z <= 16_000_000_000,
                -1_000_000 <= r.z <= 1_000_000,
        ;
    }
    g.x * (r.x as i64) + g.y * (r.y as i64) + g.z * (r.z as i64)
}

/// The product `R_base · R_mount` worked out entry by entry: the mount
/// rotation's x row survives unchanged, its y row is inverted, and the
/// projection row stays zero.
proof fn lemma_base_mount_product(sin_q: int, cos_q: int)
    requires
        -FIXED_ONE <= sin_q <= FIXED_ONE,
        -FIXED_ONE <= cos_q <= FIXED_ONE,
    ensures
        ({
            let base = Mat3 {
                rx: TriAx { x: FIXED_ONE, y: 0i32, z: 0i32 },
                ry: TriAx { x: 0i32, y: (-FIXED_ONE) as i32, z: 0i32 },
                rz: TriAx { x: 0i32, y: 0i32, z: (-FIXED_ONE) as i32 },
            };
            let mount = Mat3 {
                rx: TriAx { x: cos_q as i32, y: 0i32, z: sin_q as i32 },
                ry: TriAx { x: 0i32, y: FIXED_ONE, z: 0i32 },
                rz: TriAx { x: 0i32, y: 0i32, z: 0i32 },
            };
            &&& mul_row(base.rx, mount.rx, mount.ry, mount.rz) == (TriAx {
                x: cos_q,
                y: 0int,
                z: sin_q,
            })
            &&& mul_row(base.ry, mount.rx, mount.ry, mount.rz) == (TriAx {
                x: 0int,
                y: -FIXED_ONE as int,
                z: 0int,
            })
            &&& mul_row(base.rz, mount.rx, mount.ry, mount.rz) == (TriAx {
                x: 0int,
                y: 0int,
                z: 0int,
            })
        }),
{
    let f = FIXED_ONE as int;
    assert(f * cos_q == cos_q * f && f * sin_q == sin_q * f && (-f) * f == (-f) * f)
        by (nonlinear_arith);
    lemma_div_trunc_exact(cos_q, f);
    lemma_div_trunc_exact(sin_q, f);
    lemma_div_trunc_exact(0, f);
    lemma_div_trunc_exact(-f, f);
    assert((-f) * f == (-f) * f);
    assert(f * cos_q + 0 * 0 + 0 * 0 == cos_q * f) by (nonlinear_arith);
    assert(f * 0 + 0 * f + 0 * 0 == 0 * f) by (nonlinear_arith);
    assert(f * sin_q + 0 * 0 + 0 * 0 == sin_q * f) by (nonlinear_arith);
    assert(0 * cos_q + (-f) * 0 + 0 * 0 == 0 * f) by (nonlinear_arith);
    assert(0 * 0 + (-f) * f + 0 * 0 == (-f) * f) by (nonlinear_arith);
    assert(0 * sin_q + (-f) * 0 + 0 * 0 == 0 * f) by (nonlinear_arith);
    assert(0 * cos_q + 0 * 0 + (-f) * 0 == 0 * f) by (nonlinear_arith);
    assert(0 * 0 + 0 * f + (-f) * 0 == 0 * f) by (nonlinear_arith);
    assert(0 * sin_q + 0 * 0 + (-f) * 0 == 0 * f) by (nonlinear_arith);
}

/// Bounds the two-step numerator product of the transform, keeping it
/// well inside the i128 range.
proof fn lemma_numer_bound(base: int, sc: int, dt: int)
    requires
        -48_000_000_000_000_000 <= base <= 48_000_000_000_000_000,
        -SCALE_BOUND <= sc <= SCALE_BOUND,
        0 <= dt <= DT_NS_BOUND,
    ensures
        -48_000_000_000_000_000_000_000_000_000_000_000_000 <= (base * sc) * dt
            <= 48_000_000_000_000_000_000_000_000_000_000_000_000,
        -48_000_000_000_000_000_000_000_000 <= base * sc <= 48_000_000_000_000_000_000_000_000,
{
    assert(-48_000_000_000_000_000_000_000_000 <= base * sc <= 48_000_000_000_000_000_000_000_000)
        by (nonlinear_arith)
        requires
            -48_000_000_000_000_000 <= base <= 48_000_000_000_000_000,
            -1_000_000_000 <= sc <= 1_000_000_000,
    ;
    assert(-48_000_000_000_000_000_000_000_000_000_000_000_000 <= (base * sc) * dt
        <= 48_000_000_000_000_000_000_000_000_000_000_000_000) by (nonlinear_arith)
        requires
            -48_000_000_000_000_000_000_000_000 <= base * sc <= 48_000_000_000_000_000_000_000_000,
            0 <= dt <= 1_000_000_000_000,
    ;
}

/// FrameTransform linearity: applying the transform with a given scale
/// and time step agrees with applying it at unit scale and unit time
/// step and then multiplying by `scale * dt`, up to the unit-apply's
/// sub-1 truncation error amplified by `|scale * dt|`. Before truncation
/// the agreement is exact. The scale may be negative; the time step may
/// not.
pub proof fn lemma_transform_linear(m: Motion, g: TriAx<i64>, scale: int, dt_ns: int)
    requires
        m.wf(),
        dt_ns >= 0,
    ensures
        m.x_numer(g, scale, dt_ns) == m.x_numer(g, 1, 1) * (scale * dt_ns),
        m.y_numer(g, scale, dt_ns) == m.y_numer(g, 1, 1) * (scale * dt_ns),
        scale * dt_ns == 0 ==> m.applied_x(g, scale, dt_ns) == m.applied_x(g, 1, 1) * (scale
            * dt_ns),
        scale * dt_ns == 0 ==> m.applied_y(g, scale, dt_ns) == m.applied_y(g, 1, 1) * (scale
            * dt_ns),
        scale * dt_ns > 0 ==> m.applied_x(g, 1, 1) * (scale * dt_ns) - scale * dt_ns < m.applied_x(
            g,
            scale,
            dt_ns,
        ) < m.applied_x(g, 1, 1) * (scale * dt_ns) + scale * dt_ns,
        scale * dt_ns > 0 ==> m.applied_y(g, 1, 1) * (scale * dt_ns) - scale * dt_ns < m.applied_y(
            g,
            scale,
            dt_ns,
        ) < m.applied_y(g, 1, 1) * (scale * dt_ns) + scale * dt_ns,
        scale * dt_ns < 0 ==> m.applied_x(g, 1, 1) * (scale * dt_ns) + scale * dt_ns < m.applied_x(
            g,
            scale,
            dt_ns,
        ) < m.applied_x(g, 1, 1) * (scale * dt_ns) - scale * dt_ns,
        scale * dt_ns < 0 ==> m.applied_y(g, 1, 1) * (scale * dt_ns) + scale * dt_ns < m.applied_y(
            g,
            scale,
            dt_ns,
        ) < m.applied_y(g, 1, 1) * (scale * dt_ns) - scale * dt_ns,
{
    let bx = row_dot(g, m.transform.rx);
    let by = row_dot(g, m.transform.ry);
    let k = scale * dt_ns;
    assert(bx * scale * dt_ns == bx * (scale * dt_ns) && bx * 1 * 1 == bx) by (nonlinear_arith);
    assert(by * scale * dt_ns == by * (scale * dt_ns) && by * 1 * 1 == by) by (nonlinear_arith);
    lemma_div_trunc_scaled(bx, k, APPLY_DENOM as int);
    lemma_div_trunc_scaled(by, k, APPLY_DENOM as int);
}

} // verus!
