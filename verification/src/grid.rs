//! Grid coordinates, the clamp that keeps them on the grid, and the transform
//! from tilt to grid cells.

use vstd::prelude::*;
use crate::sample::AccelSample;
use crate::mode::SensitivityMode;

verus! {

/// An offset from the centre of the grid. The grid itself spans -2 to 2 on
/// both axes; a coordinate fresh from the transform may lie outside it.
#[derive(Clone, Copy, Debug, PartialEq, Eq, Structural)]
pub struct GridCoordinate {
    pub x: i8,
    pub y: i8,
}

/// The nearest value within -2 to 2.
pub open spec fn clamp_spec(v: int) -> int {
    if v >= 2 {
        2
    } else if v < -2 {
        -2
    } else {
        v
    }
}

/// Bounds one axis to the five cells of the grid.
pub fn clamp(v: i8) -> (r: i8)
    ensures
        r == clamp_spec(v as int),
        -2 <= r <= 2,
{
    if v >= 2 {
        2
    } else if v < -2 {
        -2
    } else {
        v
    }
}

/// Clamping lands within -2 to 2, and clamping a second time changes nothing.
pub proof fn lemma_clamp_idempotent(v: int)
    ensures
        -2 <= clamp_spec(v) <= 2,
        clamp_spec(clamp_spec(v)) == clamp_spec(v),
{
}

/// The quotient `n / d` rounded to the nearest integer, a tie going away from
/// zero.
#[verifier::inline]
pub open spec fn round_half_away(n: int, d: int) -> int
    recommends
        d > 0,
{
    if n >= 0 {
        (2 * n + d) / (2 * d)
    } else {
        -((d - 2 * n) / (2 * d))
    }
}

/// The nearest value that an `i8` holds.
pub open spec fn narrow(v: int) -> int {
    if v > 127 {
        127
    } else if v < -128 {
        -128
    } else {
        v
    }
}

/// Grid cells for `mg` milli-g along one axis: the quotient by the mode's
/// divisor, 250 in `Coarse` and 25 in `Fine`, rounded half away from zero and
/// narrowed to an `i8`.
#[verifier::inline]
pub open spec fn axis_cells(mg: int, mode: SensitivityMode) -> int {
    match mode {
        SensitivityMode::Coarse => narrow(round_half_away(mg, 250)),
        SensitivityMode::Fine => narrow(round_half_away(mg, 25)),
    }
}

/// Cells along the sensor's first axis, whose sign is flipped.
pub open spec fn raw_x(sample: AccelSample, mode: SensitivityMode) -> int {
    axis_cells(-(sample.x_mg as int), mode)
}

/// Cells along the sensor's second axis.
pub open spec fn raw_y(sample: AccelSample, mode: SensitivityMode) -> int {
    axis_cells(sample.y_mg as int, mode)
}

/// The cells of an axis are the rounded quotient by the mode's divisor.
pub proof fn lemma_axis_cells_by_divisor(mg: int, mode: SensitivityMode)
    ensures
        axis_cells(mg, mode) == narrow(round_half_away(mg, mode.divisor_spec())),
        -128 <= axis_cells(mg, mode) <= 127,
{
}

/// The rounded value is the integer nearest to the quotient: twice its
/// distance from `n / d`, scaled by `d`, is at most `d`. It has the sign of
/// `n`, and on a tie it is the one further from zero.
pub proof fn lemma_round_is_nearest(n: int, d: int)
    requires
        d > 0,
    ensures
        -d <= 2 * (n - round_half_away(n, d) * d) <= d,
        n >= 0 ==> round_half_away(n, d) >= 0 && 2 * (round_half_away(n, d) * d - n) > -d,
        n < 0 ==> round_half_away(n, d) <= 0 && 2 * (round_half_away(n, d) * d - n) < d,
        round_half_away(-n, d) == -round_half_away(n, d),
{
    let m = if n >= 0 { n } else { -n };
    let q = (2 * m + d) / (2 * d);
    assert(2 * m + d == (2 * d) * q + (2 * m + d) % (2 * d)) by {
        vstd::arithmetic::div_mod::lemma_fundamental_div_mod(2 * m + d, 2 * d);
    }
    assert(0 <= (2 * m + d) % (2 * d) < 2 * d) by {
        vstd::arithmetic::div_mod::lemma_mod_bound(2 * m + d, 2 * d);
    }
    assert((2 * d) * q == 2 * (q * d)) by (nonlinear_arith);
    assert(q >= 0) by (nonlinear_arith)
        requires
            (2 * d) * q > 2 * m + d - 2 * d,
            m >= 0,
            d > 0,
    ;
    if n == 0 {
        assert(q == 0) by (nonlinear_arith)
            requires
                (2 * d) * q <= d,
                q >= 0,
                d > 0,
        ;
    }
    assert((-q) * d == -(q * d)) by (nonlinear_arith);
}

/// Scales one axis: `mg`, negated first where `flip` is set, divided by the
/// mode's divisor, rounded half away from zero and narrowed to an `i8`.
pub fn scale_axis(mg: i32, flip: bool, mode: SensitivityMode) -> (cells: i8)
    ensures
        cells == axis_cells(if flip { -(mg as int) } else { mg as int }, mode),
{
    let n: i64 = if flip { -(mg as i64) } else { mg as i64 };
    let d: u64 = mode.divisor() as u64;
    if n >= 0 {
        let q: u64 = (2 * (n as u64) + d) / (2 * d);
        if q > 127 {
            127
        } else {
            q as i8
        }
    } else {
        let q: u64 = (d + 2 * ((-n) as u64)) / (2 * d);
        if q >= 128 {
            -128
        } else {
            (-(q as i64)) as i8
        }
    }
}

/// The tilt-to-grid transform, before clamping. The sensor sits turned
/// against the display: its second axis runs along the grid's `x`, and its
/// first axis, sign flipped, along the grid's `y`.
pub open spec fn transform(sample: AccelSample, mode: SensitivityMode) -> GridCoordinate {
    GridCoordinate { x: raw_y(sample, mode) as i8, y: raw_x(sample, mode) as i8 }
}

/// Computes the tilt-to-grid transform of `sample` in `mode`.
pub fn compute(sample: AccelSample, mode: SensitivityMode) -> (coord: GridCoordinate)
    ensures
        coord == transform(sample, mode),
        coord.x == raw_y(sample, mode),
        coord.y == raw_x(sample, mode),
{
    let raw_x = scale_axis(sample.x_mg, true, mode);
    let raw_y = scale_axis(sample.y_mg, false, mode);
    GridCoordinate { x: raw_y, y: raw_x }
}

impl GridCoordinate {
    /// Both axes lie within -2 to 2.
    pub open spec fn on_grid(&self) -> bool {
        -2 <= self.x <= 2 && -2 <= self.y <= 2
    }

    /// This coordinate with each axis clamped on its own.
    pub open spec fn clamped_spec(self) -> GridCoordinate {
        GridCoordinate { x: clamp_spec(self.x as int) as i8, y: clamp_spec(self.y as int) as i8 }
    }

    /// The centre of the grid.
    pub fn centre() -> (coord: GridCoordinate)
        ensures
            coord.x == 0,
            coord.y == 0,
    {
        GridCoordinate { x: 0, y: 0 }
    }

    /// Clamps each axis on its own.
    pub fn clamped(self) -> (coord: GridCoordinate)
        ensures
            coord == self.clamped_spec(),
            coord.x == clamp_spec(self.x as int),
            coord.y == clamp_spec(self.y as int),
            coord.on_grid(),
    {
        GridCoordinate { x: clamp(self.x), y: clamp(self.y) }
    }

    /// Row and column of this coordinate's cell in the frame.
    pub fn cell(&self) -> (at: (usize, usize))
        requires
            self.on_grid(),
        ensures
            at.0 == self.x + 2,
            at.1 == self.y + 2,
    {
        ((self.x + 2) as usize, (self.y + 2) as usize)
    }
}

/// The cursor for a sample: the transform, then the clamp.
pub open spec fn cursor_for(sample: AccelSample, mode: SensitivityMode) -> GridCoordinate {
    transform(sample, mode).clamped_spec()
}

/// Clamping puts any coordinate on the grid, and leaves one that is on the
/// grid as it is.
pub proof fn lemma_clamped_on_grid(coord: GridCoordinate)
    ensures
        coord.clamped_spec().on_grid(),
        coord.on_grid() ==> coord.clamped_spec() == coord,
        coord.clamped_spec().clamped_spec() == coord.clamped_spec(),
{
}

/// Whatever the sample and the mode, the transform followed by the clamp
/// gives a coordinate on the grid: each axis is the clamped cell count of
/// its sensor axis, within -2 to 2.
pub proof fn lemma_cursor_on_grid(sample: AccelSample, mode: SensitivityMode)
    ensures
        cursor_for(sample, mode).on_grid(),
        cursor_for(sample, mode).x == clamp_spec(raw_y(sample, mode)),
        cursor_for(sample, mode).y == clamp_spec(raw_x(sample, mode)),
{
}

/// Tilt beyond the edge pins the cursor there: from one and a half
/// divisors on, the clamped axis is 2, and from minus one and a half
/// divisors down it is -2, however large the tilt.
pub proof fn lemma_extreme_tilt_pins(mg: int, mode: SensitivityMode)
    ensures
        2 * mg >= 3 * mode.divisor_spec() ==> clamp_spec(axis_cells(mg, mode)) == 2,
        2 * mg <= -3 * mode.divisor_spec() ==> clamp_spec(axis_cells(mg, mode)) == -2,
{
    let d = mode.divisor_spec();
    lemma_round_is_nearest(mg, d);
    let r = round_half_away(mg, d);
    if 2 * mg >= 3 * d {
        assert(r >= 2) by (nonlinear_arith)
            requires
                2 * (r * d - mg) > -d,
                2 * mg >= 3 * d,
                d > 0,
        ;
    }
    if 2 * mg <= -3 * d {
        assert(r <= -2) by (nonlinear_arith)
            requires
                2 * (r * d - mg) < d,
                2 * mg <= -3 * d,
                d > 0,
        ;
    }
}

} // verus!
