//! Progress model: maps a progress value and an indeterminate flag to a
//! pair of directional vectors bounding the active arc, and provides the
//! half-plane comparison predicates the pixel classifier tests them with.
//!
//! A direction is represented exactly in integers as a point on the square
//! `|x| <= 450, |y| <= 450`: angle 0 points straight up at `(0, 450)` and a
//! degree step moves 10 units clockwise along the square's perimeter.

use vstd::prelude::*;

use crate::geometry::Point;

verus! {

/// Half the side of the square on which directional vectors live.
pub const VECTOR_RADIUS: i32 = 450;

/// Cross product of two vectors; its sign orders them by clockwise rotation.
pub open spec fn spec_cross(a: Point, b: Point) -> int {
    a.x * b.y - a.y * b.x
}

/// The directional vector of `a` degrees (clockwise from straight up),
/// for `0 <= a < 360`.
pub open spec fn spec_angle_vector(a: int) -> Point {
    if a < 45 {
        Point { x: (10 * a) as i32, y: 450 }
    } else if a < 135 {
        Point { x: 450, y: (450 - 10 * (a - 45)) as i32 }
    } else if a < 225 {
        Point { x: (450 - 10 * (a - 135)) as i32, y: -450i32 }
    } else if a < 315 {
        Point { x: -450i32, y: (-450 + 10 * (a - 225)) as i32 }
    } else {
        Point { x: (-450 + 10 * (a - 315)) as i32, y: 450 }
    }
}

/// The degree value a vector on the square stands for: the inverse of
/// `spec_angle_vector` on its image.
pub open spec fn vec_angle(v: Point) -> int {
    if v.y == 450 && 0 <= v.x < 450 {
        v.x / 10
    } else if v.x == 450 {
        45 + (450 - v.y) / 10
    } else if v.y == -450 {
        135 + (450 - v.x) / 10
    } else if v.x == -450 {
        225 + (v.y + 450) / 10
    } else {
        315 + (v.x + 450) / 10
    }
}

/// Round trip: a vector produced for a degree value reads back as it.
pub proof fn lemma_vec_angle_inverse(a: int)
    requires
        0 <= a < 360,
    ensures
        vec_angle(spec_angle_vector(a)) == a,
{
    if a < 45 {
        assert((10 * a) / 10 == a) by (nonlinear_arith);
    } else if a < 135 {
        assert((450 - (450 - 10 * (a - 45))) / 10 == a - 45) by (nonlinear_arith);
    } else if a < 225 {
        assert((450 - (450 - 10 * (a - 135))) / 10 == a - 135) by (nonlinear_arith);
    } else if a < 315 {
        assert(((-450 + 10 * (a - 225)) + 450) / 10 == a - 225) by (nonlinear_arith);
    } else {
        assert(((-450 + 10 * (a - 315)) + 450) / 10 == a - 315) by (nonlinear_arith);
    }
}

/// Strict test: `v2` lies clockwise of `v1` (within a half turn).
pub fn is_clockwise_or_equal(v1: Point, v2: Point) -> (r: bool)
    ensures
        r == (spec_cross(v1, v2) < 0),
{
    proof {
        lemma_i32_product_bound(v1.x as int, v2.y as int);
        lemma_i32_product_bound(v1.y as int, v2.x as int);
    }
    let a = (v1.x as i64) * (v2.y as i64);
    let b = (v1.y as i64) * (v2.x as i64);
    a < b
}

/// Inclusive test with the reference second: `v1` lies within the
/// closed half turn counterclockwise of `v2`, that is, `v1` is
/// clockwise of `v2` or along it.
pub fn is_clockwise_or_equal_inc(v1: Point, v2: Point) -> (r: bool)
    ensures
        r == (spec_cross(v1, v2) >= 0),
{
    proof {
        lemma_i32_product_bound(v1.x as int, v2.y as int);
        lemma_i32_product_bound(v1.y as int, v2.x as int);
    }
    let a = (v1.x as i64) * (v2.y as i64);
    let b = (v1.y as i64) * (v2.x as i64);
    a >= b
}

/// The product of two `i32` values fits comfortably in `i64`.
proof fn lemma_i32_product_bound(p: int, q: int)
    requires
        -0x80000000 <= p <= 0x7fffffff,
        -0x80000000 <= q <= 0x7fffffff,
    ensures
        -0x4000000000000000 <= p * q <= 0x4000000000000000,
{
    assert(-0x4000000000000000 <= p * q <= 0x4000000000000000) by (nonlinear_arith)
        requires
            -0x80000000 <= p <= 0x7fffffff,
            -0x80000000 <= q <= 0x7fffffff,
    ;
}

/// The vector of angle `a` degrees, clockwise from straight up.
pub fn get_vector(angle: i32) -> (r: Point)
    requires
        0 <= angle < 360,
    ensures
        r == spec_angle_vector(angle as int),
        -450 <= r.x <= 450,
        -450 <= r.y <= 450,
{
    if angle < 45 {
        Point { x: 10 * angle, y: VECTOR_RADIUS }
    } else if angle < 135 {
        Point { x: VECTOR_RADIUS, y: 450 - 10 * (angle - 45) }
    } else if angle < 225 {
        Point { x: 450 - 10 * (angle - 135), y: -VECTOR_RADIUS }
    } else if angle < 315 {
        Point { x: -VECTOR_RADIUS, y: -450 + 10 * (angle - 225) }
    } else {
        Point { x: -450 + 10 * (angle - 315), y: VECTOR_RADIUS }
    }
}

/// Progress taken modulo its 1000-unit scale, then scaled to degrees.
pub open spec fn spec_angle_of_progress(p: int) -> int {
    360 * (p % 1000) / 1000
}

/// Determinate rendering shows the full circle as active at completion.
pub open spec fn spec_show_all(indeterminate: bool, progress: int) -> bool {
    !indeterminate && progress >= 1000
}

/// Past half progress the classifier bounds the complementary wedge.
pub open spec fn spec_inverted(indeterminate: bool, progress: int) -> bool {
    !indeterminate && progress > 500
}

/// The pair (start vector, end vector) delimiting the active arc.
///
/// Indeterminate: a fixed-width band of 100 progress units to either side
/// of `progress`. Determinate: the sweep from angle 0 to the scaled
/// progress angle; at or past completion both collapse to the origin
/// (rendering is then driven by the show-all flag), and past half progress
/// the two are swapped so the minority wedge is the one bounded.
pub open spec fn spec_loader_vectors(indeterminate: bool, progress: int) -> (Point, Point) {
    if indeterminate {
        (
            spec_angle_vector(spec_angle_of_progress(progress - 100)),
            spec_angle_vector(spec_angle_of_progress(progress + 100)),
        )
    } else if progress >= 1000 {
        (Point { x: 0, y: 0 }, Point { x: 0, y: 0 })
    } else if progress > 500 {
        (spec_angle_vector(spec_angle_of_progress(progress)), spec_angle_vector(0))
    } else {
        (spec_angle_vector(0), spec_angle_vector(spec_angle_of_progress(progress)))
    }
}

/// Computes the arc-bounding vectors for a progress value.
pub fn get_loader_vectors(indeterminate: bool, progress: i32) -> (r: (Point, Point))
    requires
        0 <= progress <= 0xffff,
    ensures
        r == spec_loader_vectors(indeterminate, progress as int),
        -450 <= r.0.x <= 450,
        -450 <= r.0.y <= 450,
        -450 <= r.1.x <= 450,
        -450 <= r.1.y <= 450,
{
    if indeterminate {
        let sp = (progress + 900) % 1000;
        let ep = (progress + 100) % 1000;
        proof {
            vstd::arithmetic::div_mod::lemma_mod_multiples_vanish(
                1,
                progress as int - 100,
                1000,
            );
            assert(0 <= (progress as int + 900) % 1000 < 1000) by (nonlinear_arith);
            assert(0 <= (progress as int + 100) % 1000 < 1000) by (nonlinear_arith);
            assert(360 * ((progress as int + 900) % 1000) / 1000 < 360) by (nonlinear_arith)
                requires
                    0 <= (progress as int + 900) % 1000 < 1000,
            ;
            assert(360 * ((progress as int + 100) % 1000) / 1000 < 360) by (nonlinear_arith)
                requires
                    0 <= (progress as int + 100) % 1000 < 1000,
            ;
        }
        let start: i32 = (360 * sp) / 1000;
        let end: i32 = (360 * ep) / 1000;
        (get_vector(start), get_vector(end))
    } else if progress >= 1000 {
        (Point::zero(), Point::zero())
    } else {
        proof {
            vstd::arithmetic::div_mod::lemma_small_mod(progress as nat, 1000);
            assert(360 * (progress as int) / 1000 < 360) by (nonlinear_arith)
                requires
                    0 <= (progress as int) < 1000,
            ;
        }
        let end: i32 = (360 * progress) / 1000;
        if progress > 500 {
            (get_vector(end), get_vector(0))
        } else {
            (get_vector(0), get_vector(end))
        }
    }
}

/// Law: for a determinate progress short of completion, the two vectors
/// delimit an active wedge whose angular span is exactly the scaled
/// progress angle `360 * p / 1000`, the pair being swapped exactly when
/// `p > 500`; and completion always raises the show-all flag instead.
pub proof fn lemma_active_wedge_span(p: int)
    requires
        0 <= p < 1000,
    ensures
        ({
            let pair = spec_loader_vectors(false, p);
            let span = 360 * p / 1000;
            &&& 0 <= span < 360
            &&& if p <= 500 {
                pair.0 == spec_angle_vector(0) && vec_angle(pair.1) - vec_angle(pair.0) == span
            } else {
                pair.1 == spec_angle_vector(0) && vec_angle(pair.0) - vec_angle(pair.1) == span
            }
        }),
        spec_show_all(false, 1000),
{
    vstd::arithmetic::div_mod::lemma_small_mod(p as nat, 1000);
    let span = 360 * p / 1000;
    assert(360 * p <= 359640);
    vstd::arithmetic::div_mod::lemma_div_is_ordered(0, 360 * p, 1000);
    vstd::arithmetic::div_mod::lemma_div_is_ordered(360 * p, 359640, 1000);
    assert(359640int / 1000 == 359);
    lemma_vec_angle_inverse(0);
    lemma_vec_angle_inverse(span);
}

/// Law: at exactly half progress the vectors stand in natural order, one
/// unit past it they are swapped.
pub proof fn lemma_swap_at_half()
    ensures
        spec_loader_vectors(false, 500) == (spec_angle_vector(0), spec_angle_vector(180)),
        spec_loader_vectors(false, 501) == (spec_angle_vector(180), spec_angle_vector(0)),
{
    vstd::arithmetic::div_mod::lemma_small_mod(500nat, 1000);
    vstd::arithmetic::div_mod::lemma_small_mod(501nat, 1000);
    assert(360 * 500 / 1000 == 180);
    assert(360 * 501 / 1000 == 180);
}

} // verus!
