use vstd::prelude::*;

use crate::units::{div_toward_zero, lemma_quot_bound, quot};

verus! {

/// Largest magnitude of a coordinate that `interpolate` accepts.
pub const COORD_LIMIT: i64 = 0x4000_0000_0000_0000;

/// Why an interpolation was refused.
#[derive(Clone, Copy, Debug, PartialEq, Eq, Structural)]
pub enum InterpolateError {
    /// The abscissas and ordinates differ in number.
    LengthMismatch,
    /// Fewer than two points were given.
    TooFewPoints,
    /// `x` lies in no interval between neighbouring abscissas.
    OutOfRange,
}

/// `x` lies in the interval between the abscissas `i` and `i + 1`.
pub open spec fn brackets(xs: Seq<i64>, x: int, i: int) -> bool {
    0 <= i < xs.len() - 1 && xs[i] <= x <= xs[i + 1]
}

/// `i` is the first interval that holds `x`.
pub open spec fn first_bracket(xs: Seq<i64>, x: int, i: int) -> bool {
    brackets(xs, x, i) && forall|j: int| 0 <= j < i ==> !brackets(xs, x, j)
}

/// The value at `x` of the line through points `i` and `i + 1`, rounded toward zero from
/// point `i`; a zero-width interval gives the ordinate of point `i`.
pub open spec fn line_at(xs: Seq<i64>, ys: Seq<i64>, x: int, i: int) -> int {
    let dx = xs[i + 1] - xs[i];
    if dx == 0 {
        ys[i] as int
    } else {
        ys[i] + quot((ys[i + 1] - ys[i]) * (x - xs[i]), dx)
    }
}

/// Every coordinate is within `COORD_LIMIT`.
pub open spec fn coords_in_range(s: Seq<i64>) -> bool {
    forall|i: int| 0 <= i < s.len() ==> -COORD_LIMIT <= #[trigger] s[i] <= COORD_LIMIT
}

/// Linear interpolation at `x` between the points `(xs[i], ys[i])`, on the first interval of
/// neighbouring abscissas that holds `x`.
pub fn interpolate(xs: &[i64], ys: &[i64], x: i64) -> (r: Result<i64, InterpolateError>)
    requires
        coords_in_range(xs@),
        coords_in_range(ys@),
        -COORD_LIMIT <= x <= COORD_LIMIT,
    ensures
        xs@.len() != ys@.len() ==> r == Err::<i64, InterpolateError>(
            InterpolateError::LengthMismatch,
        ),
        xs@.len() == ys@.len() && xs@.len() < 2 ==> r == Err::<i64, InterpolateError>(
            InterpolateError::TooFewPoints,
        ),
        xs@.len() == ys@.len() && xs@.len() >= 2 ==> match r {
            Ok(y) => exists|i: int|
                first_bracket(xs@, x as int, i) && y == #[trigger] line_at(xs@, ys@, x as int, i),
            Err(e) => e == InterpolateError::OutOfRange && forall|i: int|
                !#[trigger] brackets(xs@, x as int, i),
        },
{
    if xs.len() != ys.len() {
        return Err(InterpolateError::LengthMismatch);
    }
    if xs.len() < 2 {
        return Err(InterpolateError::TooFewPoints);
    }
    let mut i: usize = 0;
    while i < xs.len() - 1
        invariant
            xs@.len() == ys@.len(),
            xs@.len() >= 2,
            i <= xs@.len() - 1,
            coords_in_range(xs@),
            coords_in_range(ys@),
            -COORD_LIMIT <= x <= COORD_LIMIT,
            forall|j: int| 0 <= j < i ==> !#[trigger] brackets(xs@, x as int, j),
        decreases xs@.len() - 1 - i,
    {
        if xs[i] <= x && x <= xs[i + 1] {
            let dx: i128 = (xs[i + 1] as i128) - (xs[i] as i128);
            if dx == 0 {
                assert(first_bracket(xs@, x as int, i as int));
                assert(ys[i as int] == line_at(xs@, ys@, x as int, i as int));
                return Ok(ys[i]);
            }
            let dy: i128 = (ys[i + 1] as i128) - (ys[i] as i128);
            let t: i128 = (x as i128) - (xs[i] as i128);
            proof {
                let lim = 2 * COORD_LIMIT;
                assert(-lim * lim <= dy * t <= lim * lim) by (nonlinear_arith)
                    requires
                        -lim <= dy <= lim,
                        0 <= t <= lim,
                ;
                lemma_line_between(dy as int, t as int, dx as int);
            }
            let step = div_toward_zero(dy * t, dx);
            let y = (ys[i] as i128 + step) as i64;
            assert(first_bracket(xs@, x as int, i as int));
            assert(y == line_at(xs@, ys@, x as int, i as int));
            return Ok(y);
        }
        i = i + 1;
    }
    Err(InterpolateError::OutOfRange)
}

/// Moving a fraction `t / dx` of the way along a rise of `dy` stays within that rise.
proof fn lemma_line_between(dy: int, t: int, dx: int)
    requires
        0 <= t <= dx,
        dx > 0,
    ensures
        dy >= 0 ==> 0 <= quot(dy * t, dx) <= dy,
        dy < 0 ==> dy <= quot(dy * t, dx) <= 0,
{
    lemma_quot_bound(dy * t, dx);
    let q = quot(dy * t, dx);
    if dy >= 0 {
        assert(0 <= dy * t <= dy * dx) by (nonlinear_arith)
            requires
                dy >= 0,
                0 <= t <= dx,
        ;
        assert(q <= dy) by (nonlinear_arith)
            requires
                dx * q <= dy * t,
                dy * t <= dy * dx,
                dx > 0,
        ;
    } else {
        assert(dy * dx <= dy * t <= 0) by (nonlinear_arith)
            requires
                dy < 0,
                0 <= t <= dx,
        ;
        assert(dy <= q) by (nonlinear_arith)
            requires
                dy * t <= dx * q,
                dy * dx <= dy * t,
                dx > 0,
        ;
    }
}

} // verus!
