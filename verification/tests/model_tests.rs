use loader::arc::get_loader_vectors;
use loader::arc::get_vector;
use loader::arc::is_clockwise_or_equal;
use loader::arc::is_clockwise_or_equal_inc;
use loader::classify::loader_get_pixel_color_idx;
use loader::color::Color;
use loader::color::get_color_table;
use loader::geometry::Point;
use loader::geometry::Rect;

fn idx(show_all: bool, inverted: bool, end: Point, n_start: Point, x: i32, y: i32) -> u8 {
    loader_get_pixel_color_idx(show_all, inverted, end, n_start, x, y, Point::new(0, 0))
}

#[test]
fn color_table_endpoints_and_midpoint() {
    let fg = Color::from_u16(0xFFFF);
    let bg = Color::from_u16(0x0000);
    let table = get_color_table(fg, bg);
    assert_eq!(table.get(0).to_u16(), 0x0000);
    assert_eq!(table.get(15).to_u16(), 0xFFFF);
    // entry 5: r = 31*5/15 = 10, g = 63*5/15 = 21, b = 10
    assert_eq!(table.get(5).to_u16(), 10 * 2048 + 21 * 32 + 10);
}

#[test]
fn vectors_walk_the_square_clockwise() {
    assert_eq!(get_vector(0), Point::new(0, 450));
    assert_eq!(get_vector(45), Point::new(450, 450));
    assert_eq!(get_vector(90), Point::new(450, 0));
    assert_eq!(get_vector(180), Point::new(0, -450));
    assert_eq!(get_vector(270), Point::new(-450, 0));
    assert_eq!(get_vector(359), Point::new(-10, 450));
}

#[test]
fn clockwise_predicates() {
    let up = Point::new(0, 450);
    let right = Point::new(450, 0);
    assert!(is_clockwise_or_equal(up, right));
    assert!(!is_clockwise_or_equal(right, up));
    assert!(!is_clockwise_or_equal(up, up));
    assert!(!is_clockwise_or_equal_inc(up, right));
    assert!(is_clockwise_or_equal_inc(right, up));
    assert!(is_clockwise_or_equal_inc(up, up));
}

#[test]
fn determinate_vectors_and_span() {
    // progress 0: both vectors at angle 0
    assert_eq!(get_loader_vectors(false, 0), (Point::new(0, 450), Point::new(0, 450)));
    // progress 250: end at 90 degrees
    assert_eq!(get_loader_vectors(false, 250), (Point::new(0, 450), Point::new(450, 0)));
    // completion collapses to the origin (show-all takes over)
    assert_eq!(get_loader_vectors(false, 1000), (Point::new(0, 0), Point::new(0, 0)));
}

#[test]
fn no_swap_at_500_but_swap_at_501() {
    // at exactly half progress the pair stays in natural order
    assert_eq!(get_loader_vectors(false, 500), (Point::new(0, 450), Point::new(0, -450)));
    // one unit past half it is swapped (both angles still 0 and 180)
    assert_eq!(get_loader_vectors(false, 501), (Point::new(0, -450), Point::new(0, 450)));
}

#[test]
fn indeterminate_band_wraps_modulo_cycle() {
    // progress 50: start = (50-100) mod 1000 = 950 -> 342 degrees
    let (s, e) = get_loader_vectors(true, 50);
    assert_eq!(s, get_vector(342));
    assert_eq!(e, get_vector(54));
}

#[test]
fn inner_disk_is_dark_for_both_branches() {
    let z = Point::new(0, 0);
    // squared distance 41^2 = 1681 <= 1722 in every membership branch
    assert_eq!(idx(true, false, z, z, 41, 0), 0);
    let end = Point::new(0, 450);
    let n_start = Point::new(-450, 0);
    assert_eq!(idx(false, false, end, n_start, 41, 0), 0);
    assert_eq!(idx(false, false, end, n_start, 0, 0), 0);
}

#[test]
fn member_branch_bands() {
    let z = Point::new(0, 0);
    // ramp up: d = 42^2 = 1764 -> 15*(1764-1722)/84 = 7
    assert_eq!(idx(true, false, z, z, 42, 0), 7);
    // plateau
    assert_eq!(idx(true, false, z, z, 43, 0), 15);
    assert_eq!(idx(true, false, z, z, 50, 0), 15);
    // ramp down: d = 59^2 = 3481 -> 15 - 15*59/118 = 8
    assert_eq!(idx(true, false, z, z, 59, 0), 8);
    // outside
    assert_eq!(idx(true, false, z, z, 60, 0), 0);
}

#[test]
fn non_member_branch_bands() {
    // degenerate wedge (progress 0): nothing is a member
    let end = Point::new(0, 450);
    let n_start = Point::new(-450, 0);
    assert_eq!(idx(false, false, end, n_start, 42, 0), 7);
    assert_eq!(idx(false, false, end, n_start, 43, 0), 15);
    // step-down ramp: d = 44^2 = 1936 -> 15 - 10*(1936-1892)/88 = 10
    assert_eq!(idx(false, false, end, n_start, 44, 0), 10);
    // dim plateau
    assert_eq!(idx(false, false, end, n_start, 45, 0), 5);
    assert_eq!(idx(false, false, end, n_start, 50, 0), 5);
    // outer ramp: d = 3481 -> 5 - 5*59/118 = 3
    assert_eq!(idx(false, false, end, n_start, 59, 0), 3);
    assert_eq!(idx(false, false, end, n_start, 60, 0), 0);
}

#[test]
fn intensity_steps_are_at_most_one() {
    // walk a radius across every band boundary in both branches
    for member in [true, false] {
        let end = Point::new(0, 450);
        let n_start = Point::new(-450, 0);
        let mut prev: Option<u8> = None;
        for x in 0..65 {
            let v = idx(member, false, end, n_start, x, 0);
            assert!(v <= 15);
            if let Some(p) = prev {
                let d = if v > p { v - p } else { p - v };
                // squared distance jumps by 2x+1 between columns; the
                // per-unit step bound of one allows that much here
                assert!(u32::from(d) <= 2 * (x as u32) + 1, "step {p} -> {v} at x={x}");
            }
            prev = Some(v);
        }
    }
}

#[test]
fn wedge_membership_quarter_progress() {
    // progress 250: the active wedge is the quarter turn ending at the
    // start direction; straight "up" pixels belong to it
    let (s, e) = get_loader_vectors(false, 250);
    let n_start = Point::new(-s.y, s.x);
    // pixel straight up from center (screen y smaller than center y)
    let up = idx(false, false, e, n_start, 0, -50);
    // pixel straight down
    let down = idx(false, false, e, n_start, 0, 50);
    assert_eq!(up, 15); // member plateau at d = 2500
    assert_eq!(down, 5); // non-member dim plateau at d = 2500
}

#[test]
fn rect_geometry() {
    let r = Rect { x0: 60, y0: 60, x1: 180, y1: 180 };
    assert_eq!(r.center(), Point::new(120, 120));
    assert_eq!(r.width(), 120);
    assert_eq!(r.height(), 120);
    let screen = Rect { x0: 0, y0: 0, x1: 240, y1: 240 };
    assert_eq!(r.clamp(screen), r);
    let off = Rect { x0: -20, y0: 10, x1: 300, y1: 250 };
    assert_eq!(off.clamp(screen), Rect { x0: 0, y0: 10, x1: 240, y1: 240 });
    assert!(r.contains(Point::new(60, 60)));
    assert!(!r.contains(Point::new(180, 60)));
}
