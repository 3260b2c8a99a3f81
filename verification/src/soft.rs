//! Software rasterizer: walks every pixel of the loader's bounding
//! rectangle, combines classifier and icon-compositor output through the
//! gradient tables, and returns the row-major pixel stream of the frame.

use vstd::prelude::*;

use crate::arc::get_loader_vectors;
use crate::arc::spec_inverted;
use crate::arc::spec_loader_vectors;
use crate::arc::spec_show_all;
use crate::arc::spec_angle_vector;
use crate::classify::IN_INNER_ANTI;
use crate::classify::lemma_degenerate_wedge_is_empty;
use crate::classify::spec_intensity;
use crate::classify::loader_get_pixel_color_idx;
use crate::classify::spec_pixel_idx;
use crate::color::Color;
use crate::color::get_color_table;
use crate::color::spec_color_table;
use crate::constant::ICON_MAX_SIZE;
use crate::constant::screen;
use crate::constant::spec_screen;
use crate::geometry::Offset;
use crate::geometry::Point;
use crate::geometry::Rect;
use crate::icon::ICON_DATA_BYTES;
use crate::icon::icon_nibble;
use crate::icon::spec_icon_nibble;
use vstd::arithmetic::div_mod::lemma_fundamental_div_mod_converse;

verus! {

/// A committed frame: the display window that was set and the row-major
/// stream of pixels written into it.
#[derive(Debug)]
pub struct LoaderFrame {
    pub window: Rect,
    pub pixels: Vec<Color>,
}

/// View of an optional icon argument: bitmap bytes, icon color, extent.
pub open spec fn view_icon(icon: Option<(&[u8], Color, Offset)>) -> Option<
    (Seq<u8>, Color, Offset),
> {
    match icon {
        Some((data, color, size)) => Some((data@, color, size)),
        None => None,
    }
}

/// Whether an icon is present and within the fixed maximum size, so that
/// it is composited at all.
pub open spec fn spec_icon_active(icon: Option<(Seq<u8>, Color, Offset)>) -> bool {
    match icon {
        Some((_, _, size)) => size.x <= ICON_MAX_SIZE && size.y <= ICON_MAX_SIZE,
        None => false,
    }
}

/// The bitmap bytes of an icon (empty without one).
pub open spec fn spec_icon_data(icon: Option<(Seq<u8>, Color, Offset)>) -> Seq<u8> {
    match icon {
        Some((data, _, _)) => data,
        None => Seq::empty(),
    }
}

/// The color of an icon (black without one).
pub open spec fn spec_icon_color(icon: Option<(Seq<u8>, Color, Offset)>) -> Color {
    match icon {
        Some((_, color, _)) => color,
        None => Color { v: 0 },
    }
}

/// The extent of an icon (zero without one).
pub open spec fn spec_icon_size(icon: Option<(Seq<u8>, Color, Offset)>) -> Offset {
    match icon {
        Some((_, _, size)) => size,
        None => Offset { x: 0, y: 0 },
    }
}

/// The color the software rasterizer emits for the pixel at `(x, y)`:
/// an icon pixel inside both the icon's clamped bounds and the loader's
/// inner disk resolves through the icon gradient; any other pixel inside
/// the screen-clamped rectangle resolves through the main gradient at the
/// classifier's intensity; everything else is plain background.
pub open spec fn spec_render_pixel(
    r: Rect,
    fg_color: Color,
    bg_color: Color,
    progress: int,
    indeterminate: bool,
    icon: Option<(Seq<u8>, Color, Offset)>,
    x: int,
    y: int,
) -> Color {
    let clamped = r.spec_clamp(spec_screen());
    let center = r.spec_center();
    let show_all = spec_show_all(indeterminate, progress);
    let inverted = spec_inverted(indeterminate, progress);
    let vectors = spec_loader_vectors(indeterminate, progress);
    let n_start = Point { x: (-(vectors.0.y as int)) as i32, y: vectors.0.x };
    let icon_area = Rect::spec_from_center_and_size(center, spec_icon_size(icon));
    let icon_area_clamped = icon_area.spec_clamp(spec_screen());
    let dx = x - center.x;
    let dy = y - center.y;
    if spec_icon_active(icon) && icon_area_clamped.spec_contains(x, y) && dx * dx + dy * dy
        <= IN_INNER_ANTI {
        spec_color_table(
            spec_icon_color(icon),
            bg_color,
            spec_icon_nibble(
                spec_icon_data(icon),
                spec_icon_size(icon).x as int,
                x - icon_area.x0,
                y - icon_area.y0,
            ),
        )
    } else if clamped.spec_contains(x, y) {
        spec_color_table(
            fg_color,
            bg_color,
            spec_pixel_idx(show_all, inverted, vectors.1, n_start, x, y, center),
        )
    } else {
        bg_color
    }
}

/// The whole frame as a row-major pixel sequence over the bounding
/// rectangle.
pub open spec fn spec_frame_seq(
    r: Rect,
    fg_color: Color,
    bg_color: Color,
    progress: int,
    indeterminate: bool,
    icon: Option<(Seq<u8>, Color, Offset)>,
) -> Seq<Color> {
    let w = r.x1 - r.x0;
    let h = r.y1 - r.y0;
    Seq::new(
        (w * h) as nat,
        |i: int|
            spec_render_pixel(
                r,
                fg_color,
                bg_color,
                progress,
                indeterminate,
                icon,
                r.x0 + i % w,
                r.y0 + i / w,
            ),
    )
}

/// Renders the loader into a pixel stream, walking the bounding
/// rectangle pixel by pixel.
pub fn loader_rust(
    r: Rect,
    fg_color: Color,
    bg_color: Color,
    progress: i32,
    indeterminate: bool,
    icon: Option<(&[u8], Color, Offset)>,
) -> (frame: LoaderFrame)
    requires
        r.ok(),
        0 <= progress <= 0xffff,
        (match icon {
            Some((data, _, size)) => data@.len() == ICON_DATA_BYTES && size.ok(),
            None => true,
        }),
    ensures
        frame.window == r.spec_clamp(spec_screen()),
        frame.pixels@ == spec_frame_seq(
            r,
            fg_color,
            bg_color,
            progress as int,
            indeterminate,
            view_icon(icon),
        ),
{
    let ghost iv = view_icon(icon);

    let clamped = r.clamp(screen());
    let center = r.center();
    let colortable = get_color_table(fg_color, bg_color);

    let mut use_icon = false;
    let mut icon_area = Rect::zero();
    let mut icon_area_clamped = Rect::zero();
    let mut icon_width: i32 = 0;
    let mut icon_colortable = get_color_table(fg_color, bg_color);

    match icon {
        Some((_, color, size)) => {
            if size.x <= ICON_MAX_SIZE && size.y <= ICON_MAX_SIZE {
                icon_width = size.x;
                icon_area = Rect::from_center_and_size(center, size);
                icon_area_clamped = icon_area.clamp(screen());
                use_icon = true;
                icon_colortable = get_color_table(color, bg_color);
            }
        },
        None => {},
    }

    let show_all = !indeterminate && progress >= 1000;
    let inverted = !indeterminate && progress > 500;
    let vs = get_loader_vectors(indeterminate, progress);
    let end_vector = vs.1;
    let n_start = Point::new(-vs.0.y, vs.0.x);

    let w = r.width();
    let mut pixels: Vec<Color> = Vec::new();
    let mut y_c = r.y0;
    while y_c < r.y1
        invariant
            r.ok(),
            0 <= progress <= 0xffff,
            (match icon {
                Some((data, _, size)) => data@.len() == ICON_DATA_BYTES && size.ok(),
                None => true,
            }),
            iv == view_icon(icon),
            clamped == r.spec_clamp(spec_screen()),
            center == r.spec_center(),
            center.ok(),
            colortable.wf(fg_color, bg_color),
            use_icon == spec_icon_active(iv),
            use_icon ==> icon_area == Rect::spec_from_center_and_size(center, spec_icon_size(iv)),
            use_icon ==> icon_area_clamped == icon_area.spec_clamp(spec_screen()),
            use_icon ==> icon_width == spec_icon_size(iv).x,
            use_icon ==> icon_colortable.wf(spec_icon_color(iv), bg_color),
            show_all == spec_show_all(indeterminate, progress as int),
            inverted == spec_inverted(indeterminate, progress as int),
            (vs.0, vs.1) == spec_loader_vectors(indeterminate, progress as int),
            -450 <= vs.0.x <= 450,
            -450 <= vs.0.y <= 450,
            end_vector == vs.1,
            n_start.x == -(vs.0.y as int),
            n_start.y == vs.0.x,
            w == r.x1 - r.x0,
            r.y0 <= y_c <= r.y1,
            pixels@.len() == (y_c - r.y0) * (w as int),
            forall|i: int|
                0 <= i < pixels@.len() ==> pixels@[i] == spec_render_pixel(
                    r,
                    fg_color,
                    bg_color,
                    progress as int,
                    indeterminate,
                    iv,
                    r.x0 + i % (w as int),
                    r.y0 + i / (w as int),
                ),
        decreases r.y1 - y_c,
    {
        let mut x_c = r.x0;
        while x_c < r.x1
            invariant
                r.ok(),
                0 <= progress <= 0xffff,
                (match icon {
                    Some((data, _, size)) => data@.len() == ICON_DATA_BYTES && size.ok(),
                    None => true,
                }),
                iv == view_icon(icon),
                clamped == r.spec_clamp(spec_screen()),
                center == r.spec_center(),
                center.ok(),
                colortable.wf(fg_color, bg_color),
                use_icon == spec_icon_active(iv),
                use_icon ==> icon_area == Rect::spec_from_center_and_size(
                    center,
                    spec_icon_size(iv),
                ),
                use_icon ==> icon_area_clamped == icon_area.spec_clamp(spec_screen()),
                use_icon ==> icon_width == spec_icon_size(iv).x,
                use_icon ==> icon_colortable.wf(spec_icon_color(iv), bg_color),
                show_all == spec_show_all(indeterminate, progress as int),
                inverted == spec_inverted(indeterminate, progress as int),
                (vs.0, vs.1) == spec_loader_vectors(indeterminate, progress as int),
                -450 <= vs.0.x <= 450,
                -450 <= vs.0.y <= 450,
                end_vector == vs.1,
                n_start.x == -(vs.0.y as int),
                n_start.y == vs.0.x,
                w == r.x1 - r.x0,
                r.y0 <= y_c < r.y1,
                r.x0 <= x_c <= r.x1,
                pixels@.len() == (y_c - r.y0) * (w as int) + (x_c - r.x0),
                forall|i: int|
                    0 <= i < pixels@.len() ==> pixels@[i] == spec_render_pixel(
                        r,
                        fg_color,
                        bg_color,
                        progress as int,
                        indeterminate,
                        iv,
                        r.x0 + i % (w as int),
                        r.y0 + i / (w as int),
                    ),
            decreases r.x1 - x_c,
        {
            let p = Point::new(x_c, y_c);
            let mut icon_pixel = false;
            let mut underlying_color = bg_color;

            if use_icon && icon_area_clamped.contains(p) {
                let x = x_c as i64 - center.x as i64;
                let y = y_c as i64 - center.y as i64;
                proof {
                    assert(0 <= x * x <= 0x4000000000000 && 0 <= y * y <= 0x4000000000000)
                        by (nonlinear_arith)
                        requires
                            -2000000 <= x <= 2000000,
                            -2000000 <= y <= 2000000,
                    ;
                }
                if x * x + y * y <= IN_INNER_ANTI as i64 {
                    match icon {
                        Some((data, _, _)) => {
                            let x_i = x_c - icon_area.x0;
                            let y_i = y_c - icon_area.y0;
                            let nib = icon_nibble(data, icon_width, x_i, y_i);
                            underlying_color = icon_colortable.get(nib);
                            icon_pixel = true;
                        },
                        None => {},
                    }
                }
            }

            if !icon_pixel && clamped.contains(p) {
                let pix_c_idx = loader_get_pixel_color_idx(
                    show_all,
                    inverted,
                    end_vector,
                    n_start,
                    x_c,
                    y_c,
                    center,
                );
                underlying_color = colortable.get(pix_c_idx);
            }

            proof {
                assert(underlying_color == spec_render_pixel(
                    r,
                    fg_color,
                    bg_color,
                    progress as int,
                    indeterminate,
                    iv,
                    x_c as int,
                    y_c as int,
                ));
            }
            pixels.push(underlying_color);
            proof {
                lemma_fundamental_div_mod_converse(
                    (y_c - r.y0) * (w as int) + (x_c - r.x0),
                    w as int,
                    y_c - r.y0,
                    x_c - r.x0,
                );
            }
            x_c = x_c + 1;
        }
        proof {
            assert((y_c - r.y0) * (w as int) + (w as int) == (y_c + 1 - r.y0) * (w as int))
                by (nonlinear_arith);
        }
        y_c = y_c + 1;
    }
    proof {
        assert((r.y1 - r.y0) * (w as int) == (w as int) * (r.y1 - r.y0)) by (nonlinear_arith);
        assert(pixels@ =~= spec_frame_seq(
            r,
            fg_color,
            bg_color,
            progress as int,
            indeterminate,
            iv,
        ));
    }
    LoaderFrame { window: clamped, pixels }
}

/// Law: at progress zero (determinate) the active wedge is empty, so
/// every pixel of the frame shows the inactive ("track") banding of its
/// radial distance, or plain background outside the clamped window.
pub proof fn lemma_zero_progress_inactive(r: Rect, fg_color: Color, bg_color: Color, x: int, y: int)
    ensures
        ({
            let center = r.spec_center();
            let d = (x - center.x) * (x - center.x) + (y - center.y) * (y - center.y);
            spec_render_pixel(r, fg_color, bg_color, 0, false, None, x, y) == (if r.spec_clamp(
                spec_screen(),
            ).spec_contains(x, y) {
                spec_color_table(fg_color, bg_color, spec_intensity(false, d))
            } else {
                bg_color
            })
        }),
{
    let center = r.spec_center();
    assert((center.y - y) * (center.y - y) == (y - center.y) * (y - center.y))
        by (nonlinear_arith);
    vstd::arithmetic::div_mod::lemma_small_mod(0nat, 1000);
    assert(spec_loader_vectors(false, 0) == (spec_angle_vector(0), spec_angle_vector(0)));
    lemma_degenerate_wedge_is_empty(spec_angle_vector(0), x - center.x, center.y - y);
}

/// Law: at full progress (determinate) the show-all flag makes every
/// pixel a member, so the frame shows the active banding of its radial
/// distance, or plain background outside the clamped window.
pub proof fn lemma_full_progress_active(
    r: Rect,
    fg_color: Color,
    bg_color: Color,
    x: int,
    y: int,
)
    ensures
        ({
            let center = r.spec_center();
            let d = (x - center.x) * (x - center.x) + (y - center.y) * (y - center.y);
            spec_render_pixel(r, fg_color, bg_color, 1000, false, None, x, y) == (if r.spec_clamp(
                spec_screen(),
            ).spec_contains(x, y) {
                spec_color_table(fg_color, bg_color, spec_intensity(true, d))
            } else {
                bg_color
            })
        }),
{
    let center = r.spec_center();
    assert((center.y - y) * (center.y - y) == (y - center.y) * (y - center.y))
        by (nonlinear_arith);
}

} // verus!
