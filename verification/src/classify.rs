//! Pixel classifier: squared-distance banding with a two-sided half-plane
//! membership test, producing a 4-bit antialiased intensity.
//!
//! The six thresholds are the squares of radii derived from the loader's
//! configured inner radius (42) and outer radius (60), each offset by half
//! a pixel so the one-pixel antialiasing bands straddle the ideal circles:
//! 41.5^2, 42.5^2, 43.5^2, 44.5^2, 58.5^2 and 59.5^2 rounded down.

use vstd::prelude::*;

use crate::geometry::Point;
use crate::geometry::coord_ok;
use vstd::arithmetic::div_mod::lemma_div_is_ordered;
use vstd::arithmetic::div_mod::lemma_div_plus_one;

verus! {

/// Squared distance at which the inner antialiasing ramp starts.
pub const IN_INNER_ANTI: i32 = 1722;

/// Squared distance at which the inner ramp reaches full intensity.
pub const INNER_MIN: i32 = 1806;

/// End of the full-intensity inner plateau of the inactive wedge.
pub const INNER_MAX: i32 = 1892;

/// End of the inactive wedge's step-down ramp from 15 to 5.
pub const INNER_OUTER_ANTI: i32 = 1980;

/// Squared distance at which the outer antialiasing ramp starts.
pub const OUTER_OUT_ANTI: i32 = 3422;

/// Squared distance at which intensity returns to 0 at the outer edge.
pub const OUTER_MAX: i32 = 3540;

/// Membership of a pixel (given relative to the center, y up) in the
/// active wedge: the pixel vector lies clockwise of the start normal and
/// the pixel's own normal lies clockwise of (or along) the end vector;
/// inverted, the conjunction as a whole is negated.
pub open spec fn spec_included(
    inverted: bool,
    end_vector: Point,
    n_start: Point,
    x_p: int,
    y_p: int,
) -> bool {
    let c_start = n_start.x * y_p - n_start.y * x_p;
    let c_end = (-y_p) * end_vector.y - x_p * end_vector.x;
    if inverted {
        !(c_start < 0) || !(c_end >= 0)
    } else {
        c_start < 0 && c_end >= 0
    }
}

/// Intensity 0..15 as a function of wedge membership and squared radial
/// distance `d`. Members ramp 0 to 15 over the inner band, hold 15, and
/// ramp back to 0 at the outer edge; non-members step down to a dimmer
/// plateau of 5 after a short full-intensity ring, giving the "track"
/// look behind the "fill" look.
pub open spec fn spec_intensity(member: bool, d: int) -> int {
    if d <= IN_INNER_ANTI {
        0
    } else if d <= INNER_MIN {
        15 * (d - IN_INNER_ANTI) / (INNER_MIN - IN_INNER_ANTI)
    } else if member {
        if d <= OUTER_OUT_ANTI {
            15
        } else if d <= OUTER_MAX {
            15 - 15 * (d - OUTER_OUT_ANTI) / (OUTER_MAX - OUTER_OUT_ANTI)
        } else {
            0
        }
    } else {
        if d <= INNER_MAX {
            15
        } else if d <= INNER_OUTER_ANTI {
            15 - 10 * (d - INNER_MAX) / (INNER_OUTER_ANTI - INNER_MAX)
        } else if d <= OUTER_OUT_ANTI {
            5
        } else if d <= OUTER_MAX {
            5 - 5 * (d - OUTER_OUT_ANTI) / (OUTER_MAX - OUTER_OUT_ANTI)
        } else {
            0
        }
    }
}

/// The intensity the classifier assigns to the pixel at `(x_c, y_c)`:
/// membership (forced by the show-all flag) and banded squared distance
/// from `center`, with the display's y axis flipped.
pub open spec fn spec_pixel_idx(
    show_all: bool,
    inverted: bool,
    end_vector: Point,
    n_start: Point,
    x_c: int,
    y_c: int,
    center: Point,
) -> int {
    let x_p = x_c - center.x;
    let y_p = center.y - y_c;
    let d = x_p * x_p + y_p * y_p;
    spec_intensity(
        show_all || spec_included(inverted, end_vector, n_start, x_p, y_p),
        d,
    )
}

/// Every intensity the classifier can produce fits in 4 bits.
pub proof fn lemma_intensity_bounds(member: bool, d: int)
    ensures
        0 <= spec_intensity(member, d) <= 15,
{
    if IN_INNER_ANTI < d <= INNER_MIN {
        lemma_div_is_ordered(0, 15 * (d - IN_INNER_ANTI), 84);
        lemma_div_is_ordered(15 * (d - IN_INNER_ANTI), 1260, 84);
        assert(1260int / 84 == 15);
    }
    if member {
        if OUTER_OUT_ANTI < d <= OUTER_MAX {
            lemma_div_is_ordered(0, 15 * (d - OUTER_OUT_ANTI), 118);
            lemma_div_is_ordered(15 * (d - OUTER_OUT_ANTI), 1770, 118);
            assert(1770int / 118 == 15);
        }
    } else {
        if INNER_MAX < d <= INNER_OUTER_ANTI {
            lemma_div_is_ordered(0, 10 * (d - INNER_MAX), 88);
            lemma_div_is_ordered(10 * (d - INNER_MAX), 880, 88);
            assert(880int / 88 == 10);
        }
        if OUTER_OUT_ANTI < d <= OUTER_MAX {
            lemma_div_is_ordered(0, 5 * (d - OUTER_OUT_ANTI), 118);
            lemma_div_is_ordered(5 * (d - OUTER_OUT_ANTI), 590, 118);
            assert(590int / 118 == 5);
        }
    }
}

/// Law: within the inner disk (squared distance at most the inner
/// antialiasing start) the intensity is exactly 0, whatever the
/// membership.
pub proof fn lemma_inner_disk_is_dark(member: bool, d: int)
    requires
        d <= IN_INNER_ANTI,
    ensures
        spec_intensity(member, d) == 0,
{
}

/// Law: when the start and end vectors coincide (a determinate progress
/// of zero), the two half-plane tests contradict each other, so no pixel
/// at all belongs to the active wedge.
pub proof fn lemma_degenerate_wedge_is_empty(v: Point, x_p: int, y_p: int)
    requires
        -450 <= v.x <= 450,
        -450 <= v.y <= 450,
    ensures
        !spec_included(false, v, Point { x: (-(v.y as int)) as i32, y: v.x }, x_p, y_p),
{
    assert((-(v.y as int)) * y_p - (v.x as int) * x_p == (-y_p) * (v.y as int) - x_p * (
    v.x as int)) by (nonlinear_arith);
}

/// Law: intensity is monotonically non-decreasing up to the branch's peak
/// band and non-increasing after it, for both membership branches. The
/// peak band starts where the inner ramp tops out and ends where the
/// branch begins its descent.
pub proof fn lemma_intensity_unimodal(member: bool, d1: int, d2: int)
    requires
        d1 <= d2,
    ensures
        ({
            let peak = if member { OUTER_OUT_ANTI as int } else { INNER_MAX as int };
            &&& d2 <= peak ==> spec_intensity(member, d1) <= spec_intensity(member, d2)
            &&& peak <= d1 ==> spec_intensity(member, d1) >= spec_intensity(member, d2)
        }),
{
    lemma_intensity_bounds(member, d1);
    lemma_intensity_bounds(member, d2);
    let peak: int = if member { OUTER_OUT_ANTI as int } else { INNER_MAX as int };
    if d2 <= peak {
        // Rising side: the only non-constant band is the inner ramp.
        if IN_INNER_ANTI < d1 <= INNER_MIN && IN_INNER_ANTI < d2 <= INNER_MIN {
            lemma_div_is_ordered(15 * (d1 - IN_INNER_ANTI), 15 * (d2 - IN_INNER_ANTI), 84);
        }
        if IN_INNER_ANTI < d1 <= INNER_MIN && INNER_MIN < d2 {
            lemma_div_is_ordered(15 * (d1 - IN_INNER_ANTI), 1260, 84);
            assert(1260int / 84 == 15);
        }
    }
    if peak <= d1 {
        // Falling side: each branch descends through its ramps.
        if member {
            if OUTER_OUT_ANTI < d1 <= OUTER_MAX && OUTER_OUT_ANTI < d2 <= OUTER_MAX {
                lemma_div_is_ordered(15 * (d1 - OUTER_OUT_ANTI), 15 * (d2 - OUTER_OUT_ANTI), 118);
            }
        } else {
            if INNER_MAX < d1 <= INNER_OUTER_ANTI && INNER_MAX < d2 <= INNER_OUTER_ANTI {
                lemma_div_is_ordered(10 * (d1 - INNER_MAX), 10 * (d2 - INNER_MAX), 88);
            }
            if INNER_MAX < d1 <= INNER_OUTER_ANTI && INNER_OUTER_ANTI < d2 {
                lemma_div_is_ordered(10 * (d1 - INNER_MAX), 10 * (INNER_OUTER_ANTI - INNER_MAX), 88);
                assert(880int / 88 == 10);
            }
            if OUTER_OUT_ANTI < d1 <= OUTER_MAX && OUTER_OUT_ANTI < d2 <= OUTER_MAX {
                lemma_div_is_ordered(5 * (d1 - OUTER_OUT_ANTI), 5 * (d2 - OUTER_OUT_ANTI), 118);
            }
        }
    }
}

/// Law: stepping the squared distance by one never moves the intensity by
/// more than one level, so band boundaries show no discontinuity larger
/// than one step.
pub proof fn lemma_intensity_step(member: bool, d: int)
    ensures
        spec_intensity(member, d) - 1 <= spec_intensity(member, d + 1) <= spec_intensity(
            member,
            d,
        ) + 1,
{
    lemma_intensity_bounds(member, d);
    lemma_intensity_bounds(member, d + 1);
    lemma_intensity_unimodal(member, d, d + 1);
    let peak: int = if member { OUTER_OUT_ANTI as int } else { INNER_MAX as int };
    if d + 1 <= peak {
        if IN_INNER_ANTI < d + 1 <= INNER_MIN {
            // Numerator grows by 15, well under the divisor 84.
            lemma_div_is_ordered(15 * (d + 1 - IN_INNER_ANTI), 15 * (d - IN_INNER_ANTI) + 84, 84);
            lemma_div_plus_one(15 * (d - IN_INNER_ANTI), 84);
        }
    } else if peak <= d {
        if member {
            if OUTER_OUT_ANTI < d + 1 <= OUTER_MAX {
                lemma_div_is_ordered(
                    15 * (d + 1 - OUTER_OUT_ANTI),
                    15 * (d - OUTER_OUT_ANTI) + 118,
                    118,
                );
                lemma_div_plus_one(15 * (d - OUTER_OUT_ANTI), 118);
            }
            if d == OUTER_MAX {
                assert(15 - 15 * (OUTER_MAX - OUTER_OUT_ANTI) / (OUTER_MAX - OUTER_OUT_ANTI) == 0)
                    by {
                    assert(1770int / 118 == 15);
                };
            }
        } else {
            if INNER_MAX < d + 1 <= INNER_OUTER_ANTI {
                lemma_div_is_ordered(10 * (d + 1 - INNER_MAX), 10 * (d - INNER_MAX) + 88, 88);
                lemma_div_plus_one(10 * (d - INNER_MAX), 88);
            }
            if d == INNER_OUTER_ANTI {
                assert(15 - 10 * (INNER_OUTER_ANTI - INNER_MAX) / (INNER_OUTER_ANTI - INNER_MAX)
                    == 5) by {
                    assert(880int / 88 == 10);
                };
            }
            if OUTER_OUT_ANTI < d + 1 <= OUTER_MAX {
                lemma_div_is_ordered(
                    5 * (d + 1 - OUTER_OUT_ANTI),
                    5 * (d - OUTER_OUT_ANTI) + 118,
                    118,
                );
                lemma_div_plus_one(5 * (d - OUTER_OUT_ANTI), 118);
            }
            if d == OUTER_MAX {
                assert(5 - 5 * (OUTER_MAX - OUTER_OUT_ANTI) / (OUTER_MAX - OUTER_OUT_ANTI) == 0)
                    by {
                    assert(590int / 118 == 5);
                };
            }
        }
    }
}

/// Classifies one pixel into its 4-bit intensity.
pub fn loader_get_pixel_color_idx(
    show_all: bool,
    inverted: bool,
    end_vector: Point,
    n_start: Point,
    x_c: i32,
    y_c: i32,
    center: Point,
) -> (r: u8)
    requires
        coord_ok(x_c as int),
        coord_ok(y_c as int),
        center.ok(),
    ensures
        r as int == spec_pixel_idx(show_all, inverted, end_vector, n_start, x_c as int, y_c as int, center),
        r <= 15,
{
    let x_p: i64 = x_c as i64 - center.x as i64;
    let y_p: i64 = center.y as i64 - y_c as i64;

    proof {
        assert(0 <= x_p * x_p <= 0x4000000000000 && 0 <= y_p * y_p <= 0x4000000000000)
            by (nonlinear_arith)
            requires
                -2000000 <= x_p <= 2000000,
                -2000000 <= y_p <= 2000000,
        ;
        assert((n_start.x as int) * y_p <= 0x10000000000000 && (n_start.x as int) * y_p
            >= -0x10000000000000 && (n_start.y as int) * x_p <= 0x10000000000000 && (
        n_start.y as int) * x_p >= -0x10000000000000 && (-y_p) * (end_vector.y as int)
            <= 0x10000000000000 && (-y_p) * (end_vector.y as int) >= -0x10000000000000 && x_p
            * (end_vector.x as int) <= 0x10000000000000 && x_p * (end_vector.x as int)
            >= -0x10000000000000) by (nonlinear_arith)
            requires
                -2000000 <= x_p <= 2000000,
                -2000000 <= y_p <= 2000000,
                -0x80000000 <= n_start.x < 0x80000000,
                -0x80000000 <= n_start.y < 0x80000000,
                -0x80000000 <= end_vector.x < 0x80000000,
                -0x80000000 <= end_vector.y < 0x80000000,
        ;
    }

    let d: i64 = x_p * x_p + y_p * y_p;

    let c_start: i64 = n_start.x as i64 * y_p - n_start.y as i64 * x_p;
    let c_end: i64 = (-y_p) * end_vector.y as i64 - x_p * end_vector.x as i64;

    let included = if inverted {
        !(c_start < 0) || !(c_end >= 0)
    } else {
        c_start < 0 && c_end >= 0
    };

    let member = show_all || included;

    proof {
        lemma_intensity_bounds(member, d as int);
    }

    if d <= IN_INNER_ANTI as i64 {
        0
    } else if d <= INNER_MIN as i64 {
        proof {
            lemma_div_is_ordered(0, 15 * (d - IN_INNER_ANTI), 84);
            lemma_div_is_ordered(15 * (d - IN_INNER_ANTI), 1260, 84);
            assert(1260int / 84 == 15);
        }
        ((15 * (d - IN_INNER_ANTI as i64)) / (INNER_MIN as i64 - IN_INNER_ANTI as i64)) as u8
    } else if member {
        if d <= OUTER_OUT_ANTI as i64 {
            15
        } else if d <= OUTER_MAX as i64 {
            proof {
                lemma_div_is_ordered(0, 15 * (d - OUTER_OUT_ANTI), 118);
                lemma_div_is_ordered(15 * (d - OUTER_OUT_ANTI), 1770, 118);
                assert(1770int / 118 == 15);
            }
            (15 - (15 * (d - OUTER_OUT_ANTI as i64)) / (OUTER_MAX as i64 - OUTER_OUT_ANTI as i64))
                as u8
        } else {
            0
        }
    } else {
        if d <= INNER_MAX as i64 {
            15
        } else if d <= INNER_OUTER_ANTI as i64 {
            proof {
                lemma_div_is_ordered(0, 10 * (d - INNER_MAX), 88);
                lemma_div_is_ordered(10 * (d - INNER_MAX), 880, 88);
                assert(880int / 88 == 10);
            }
            (15 - (10 * (d - INNER_MAX as i64)) / (INNER_OUTER_ANTI as i64 - INNER_MAX as i64))
                as u8
        } else if d <= OUTER_OUT_ANTI as i64 {
            5
        } else if d <= OUTER_MAX as i64 {
            proof {
                lemma_div_is_ordered(0, 5 * (d - OUTER_OUT_ANTI), 118);
                lemma_div_is_ordered(5 * (d - OUTER_OUT_ANTI), 590, 118);
                assert(590int / 118 == 5);
            }
            (5 - (5 * (d - OUTER_OUT_ANTI as i64)) / (OUTER_MAX as i64 - OUTER_OUT_ANTI as i64))
                as u8
        } else {
            0
        }
    }
}

} // verus!
