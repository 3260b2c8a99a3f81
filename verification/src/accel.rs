//! Model of the hardware-accelerated pipeline: a block-transfer engine
//! that blends one icon nibble row over one loader nibble row per
//! scanline, driven from a ping-pong pair of line buffers.
//!
//! Issuing a blend is non-blocking: the engine holds the row in flight
//! until the next blocking wait commits it to the output stream. The
//! engine records every call in an event log, so the wait-before-reuse
//! discipline of its caller is part of the verified interface.

use vstd::prelude::*;

use crate::arc::get_loader_vectors;
use crate::arc::spec_inverted;
use crate::arc::spec_loader_vectors;
use crate::arc::spec_show_all;
use crate::classify::loader_get_pixel_color_idx;
use crate::classify::spec_pixel_idx;
use crate::color::Color;
use crate::color::blend;
use crate::color::get_color_table;
use crate::color::spec_blend;
use crate::color::spec_color_table;
use crate::constant::HEIGHT;
use crate::constant::ICON_MAX_SIZE;
use crate::constant::WIDTH;
use crate::constant::screen;
use crate::constant::spec_screen;
use crate::geometry::Offset;
use crate::geometry::Point;
use crate::geometry::Rect;
use crate::geometry::coord_ok;
use crate::icon::ICON_DATA_BYTES;
use crate::soft::spec_icon_active;
use crate::soft::spec_icon_color;
use crate::soft::spec_icon_data;
use crate::soft::spec_icon_size;
use crate::soft::view_icon;
use vstd::arithmetic::div_mod::lemma_fundamental_div_mod_converse;

verus! {

/// One call into the transfer engine, as its event log records it.
#[derive(Clone, Copy, PartialEq, Eq, Structural, Debug)]
pub enum BlitEvent {
    /// A blocking wait for the transfer in flight (if any) to complete.
    Wait,
    /// A non-blocking blend issued from line-buffer pair `slot`.
    Blend { slot: u8 },
}

/// Nibble `x` of a packed row: even columns sit in low nibbles, odd
/// columns in high nibbles.
pub open spec fn spec_nibble_at(row: Seq<u8>, x: int) -> int {
    if x % 2 == 0 {
        (row[x / 2] as int) % 16
    } else {
        (row[x / 2] as int) / 16
    }
}

/// The pixel row a blend produces: each loader nibble resolves through
/// the fg/bg gradient, then the icon nibble blends the programmed icon
/// color over that pixel (an icon nibble of 0 leaves it unchanged).
pub open spec fn spec_blend_row(
    fg_color: Color,
    bg_color: Color,
    icon_color: Color,
    icon_row: Seq<u8>,
    loader_row: Seq<u8>,
    width: int,
) -> Seq<Color> {
    Seq::new(
        width as nat,
        |x: int|
            spec_blend(
                spec_color_table(fg_color, bg_color, spec_nibble_at(loader_row, x)),
                icon_color,
                spec_nibble_at(icon_row, x),
            ),
    )
}

/// Reads nibble `x` out of a packed row.
pub fn nibble_at(row: &[u8], x: i32) -> (r: u8)
    requires
        0 <= x,
        x / 2 < row@.len(),
    ensures
        r as int == spec_nibble_at(row@, x as int),
        r <= 15,
{
    let b = row[(x / 2) as usize];
    if x % 2 == 0 {
        b % 16
    } else {
        b / 16
    }
}

/// The blend engine: colors are programmed once per call, every issued
/// row is held in flight until the next wait commits it, and the event
/// log keeps the order of calls.
pub struct BlitEngine {
    pub fg_color: Color,
    pub bg_color: Color,
    pub icon_color: Color,
    pub committed: Vec<Color>,
    pub pending: Option<(Vec<Color>, u8)>,
    pub waits: u64,
    pub events: Vec<BlitEvent>,
}

impl BlitEngine {
    /// Programs the three blend colors and hands back an idle engine
    /// with an empty output stream.
    pub fn setup_4bpp_over_4bpp(fg_color: Color, bg_color: Color, icon_color: Color) -> (e:
        BlitEngine)
        ensures
            e.fg_color == fg_color,
            e.bg_color == bg_color,
            e.icon_color == icon_color,
            e.committed@.len() == 0,
            e.pending is None,
            e.waits == 0,
            e.events@.len() == 0,
    {
        BlitEngine {
            fg_color,
            bg_color,
            icon_color,
            committed: Vec::new(),
            pending: None,
            waits: 0,
            events: Vec::new(),
        }
    }

    /// Blocks until the transfer in flight completes: its row joins the
    /// committed stream and the engine goes idle. Counts as one wait
    /// even when nothing was in flight.
    pub fn wait_for_transfer(&mut self)
        requires
            old(self).waits < 0xffffffffffffffff,
        ensures
            final(self).fg_color == old(self).fg_color,
            final(self).bg_color == old(self).bg_color,
            final(self).icon_color == old(self).icon_color,
            final(self).waits == old(self).waits + 1,
            final(self).events@ == old(self).events@.push(BlitEvent::Wait),
            final(self).pending is None,
            final(self).committed@ == old(self).committed@ + (match old(self).pending {
                Some((row, _)) => row@,
                None => Seq::<Color>::empty(),
            }),
    {
        let p = self.pending.take();
        match p {
            Some((mut row, _)) => {
                self.committed.append(&mut row);
            },
            None => {
                proof {
                    assert(self.committed@ =~= self.committed@ + Seq::<Color>::empty());
                }
            },
        }
        self.waits = self.waits + 1;
        self.events.push(BlitEvent::Wait);
    }

    /// Issues a blend of an icon nibble row over a loader nibble row
    /// into the next output row, from line-buffer pair `slot`.
    /// Non-blocking; the engine must be idle, so the caller has to have
    /// waited out the previous transfer first.
    pub fn start_blend(&mut self, icon_row: &[u8], loader_row: &[u8], width: i32, slot: u8)
        requires
            old(self).pending is None,
            0 <= width,
            width % 2 == 0,
            icon_row@.len() >= width / 2,
            loader_row@.len() >= width / 2,
        ensures
            final(self).fg_color == old(self).fg_color,
            final(self).bg_color == old(self).bg_color,
            final(self).icon_color == old(self).icon_color,
            final(self).waits == old(self).waits,
            final(self).committed == old(self).committed,
            final(self).events@ == old(self).events@.push(BlitEvent::Blend { slot }),
            final(self).pending matches Some((row, s)) && row@ == spec_blend_row(
                old(self).fg_color,
                old(self).bg_color,
                old(self).icon_color,
                icon_row@,
                loader_row@,
                width as int,
            ) && s == slot,
    {
        let table = get_color_table(self.fg_color, self.bg_color);
        let mut row: Vec<Color> = Vec::new();
        let mut x: i32 = 0;
        while x < width
            invariant
                *self == *old(self),
                0 <= x <= width,
                width % 2 == 0,
                icon_row@.len() >= width / 2,
                loader_row@.len() >= width / 2,
                table.wf(self.fg_color, self.bg_color),
                row@.len() == x as int,
                forall|j: int|
                    0 <= j < x as int ==> row@[j] == spec_blend_row(
                        self.fg_color,
                        self.bg_color,
                        self.icon_color,
                        icon_row@,
                        loader_row@,
                        width as int,
                    )[j],
            decreases width - x,
        {
            proof {
                assert(x as int / 2 < width as int / 2);
            }
            let l = nibble_at(loader_row, x);
            let ii = nibble_at(icon_row, x);
            row.push(blend(table.get(l), self.icon_color, ii));
            x = x + 1;
        }
        proof {
            assert(row@ =~= spec_blend_row(
                self.fg_color,
                self.bg_color,
                self.icon_color,
                icon_row@,
                loader_row@,
                width as int,
            ));
        }
        self.pending = Some((row, slot));
        self.events.push(BlitEvent::Blend { slot });
    }
}

/// A freshly cleared line buffer of `n` zero bytes.
fn zero_row(n: usize) -> (r: Vec<u8>)
    ensures
        r@ == Seq::new(n as nat, |j: int| 0u8),
{
    let mut v: Vec<u8> = Vec::new();
    let mut i: usize = 0;
    while i < n
        invariant
            i <= n,
            v@.len() == i as int,
            forall|j: int| 0 <= j < i as int ==> v@[j] == 0u8,
        decreases n - i,
    {
        v.push(0u8);
        i = i + 1;
    }
    proof {
        assert(v@ =~= Seq::new(n as nat, |j: int| 0u8));
    }
    v
}

/// One packed loader intensity row: two classifier nibbles per byte,
/// the even column in the low nibble; pixels outside the clamped window
/// pack as 0.
pub open spec fn spec_packed_row(
    clamped: Rect,
    center: Point,
    show_all: bool,
    inverted: bool,
    end_vector: Point,
    n_start: Point,
    x0: int,
    w: int,
    y: int,
) -> Seq<u8> {
    Seq::new(
        (w / 2) as nat,
        |j: int|
            {
                let xl = x0 + 2 * j;
                let lo = if clamped.spec_contains(xl, y) {
                    spec_pixel_idx(show_all, inverted, end_vector, n_start, xl, y, center)
                } else {
                    0
                };
                let hi = if clamped.spec_contains(xl + 1, y) {
                    spec_pixel_idx(show_all, inverted, end_vector, n_start, xl + 1, y, center)
                } else {
                    0
                };
                (lo + 16 * hi) as u8
            },
    )
}

/// The packed loader row for scanline `y` of the bounding rectangle.
pub open spec fn spec_loader_row(r: Rect, progress: int, indeterminate: bool, y: int) -> Seq<u8> {
    let vectors = spec_loader_vectors(indeterminate, progress);
    spec_packed_row(
        r.spec_clamp(spec_screen()),
        r.spec_center(),
        spec_show_all(indeterminate, progress),
        spec_inverted(indeterminate, progress),
        vectors.1,
        Point { x: (-(vectors.0.y as int)) as i32, y: vectors.0.x },
        r.x0 as int,
        r.x1 - r.x0,
        y,
    )
}

/// The icon nibble row fed to the engine for scanline `y`: the icon's
/// packed row bytes at their horizontal offset inside the line, zeros
/// elsewhere, and an all-zero line when `y` misses the icon.
pub open spec fn spec_icon_row(
    r: Rect,
    icon: Option<(Seq<u8>, Color, Offset)>,
    y: int,
) -> Seq<u8> {
    let row_bytes = (r.x1 - r.x0) / 2;
    let icon_area = Rect::spec_from_center_and_size(r.spec_center(), spec_icon_size(icon));
    let icon_area_clamped = icon_area.spec_clamp(spec_screen());
    let offset = (icon_area_clamped.x0 - r.x0) / 2;
    let half = spec_icon_size(icon).x as int / 2;
    if spec_icon_active(icon) && icon_area_clamped.y0 <= y < icon_area_clamped.y1 {
        Seq::new(
            row_bytes as nat,
            |j: int|
                if offset <= j < offset + half {
                    spec_icon_data(icon)[(y - icon_area.y0) * half + (j - offset)]
                } else {
                    0u8
                },
        )
    } else {
        Seq::new(row_bytes as nat, |j: int| 0u8)
    }
}

/// The icon color the engine is programmed with: the icon's own color
/// when one is composited, black otherwise.
pub open spec fn spec_accel_icon_color(icon: Option<(Seq<u8>, Color, Offset)>) -> Color {
    if spec_icon_active(icon) {
        spec_icon_color(icon)
    } else {
        Color { v: 0 }
    }
}

/// The full pixel stream the hardware pipeline commits, row by row.
pub open spec fn spec_accel_stream(
    r: Rect,
    fg_color: Color,
    bg_color: Color,
    progress: int,
    indeterminate: bool,
    icon: Option<(Seq<u8>, Color, Offset)>,
) -> Seq<Color> {
    let w = r.x1 - r.x0;
    Seq::new(
        (w * (r.y1 - r.y0)) as nat,
        |i: int|
            spec_blend_row(
                fg_color,
                bg_color,
                spec_accel_icon_color(icon),
                spec_icon_row(r, icon, r.y0 + i / w),
                spec_loader_row(r, progress, indeterminate, r.y0 + i / w),
                w,
            )[i % w],
    )
}

/// The exact event log a render of the bounding rectangle leaves in the
/// engine: a wait before each of the scanline blends, whose buffer
/// slots alternate with row parity, and one trailing wait.
pub open spec fn spec_blit_events(r: Rect) -> Seq<BlitEvent> {
    Seq::new(
        (2 * (r.y1 - r.y0) + 1) as nat,
        |i: int|
            if i % 2 == 0 {
                BlitEvent::Wait
            } else {
                BlitEvent::Blend { slot: ((r.y0 + i / 2) % 2) as u8 }
            },
    )
}

/// Packs the loader intensity row for scanline `y` into a fresh buffer.
fn pack_loader_row(
    clamped: Rect,
    center: Point,
    show_all: bool,
    inverted: bool,
    end_vector: Point,
    n_start: Point,
    x0: i32,
    w: i32,
    y: i32,
) -> (buf: Vec<u8>)
    requires
        0 <= w,
        w % 2 == 0,
        coord_ok(x0 as int),
        coord_ok(x0 as int + w as int),
        coord_ok(y as int),
        center.ok(),
    ensures
        buf@ == spec_packed_row(
            clamped,
            center,
            show_all,
            inverted,
            end_vector,
            n_start,
            x0 as int,
            w as int,
            y as int,
        ),
{
    let half = w / 2;
    let mut buf: Vec<u8> = Vec::new();
    let mut j: i32 = 0;
    while j < half
        invariant
            0 <= j <= half,
            half == w as int / 2,
            0 <= w,
            w % 2 == 0,
            coord_ok(x0 as int),
            coord_ok(x0 as int + w as int),
            coord_ok(y as int),
            center.ok(),
            buf@.len() == j as int,
            forall|t: int|
                0 <= t < j as int ==> buf@[t] == spec_packed_row(
                    clamped,
                    center,
                    show_all,
                    inverted,
                    end_vector,
                    n_start,
                    x0 as int,
                    w as int,
                    y as int,
                )[t],
        decreases half - j,
    {
        let xl = x0 + 2 * j;
        let lo: u8 = if clamped.contains(Point::new(xl, y)) {
            loader_get_pixel_color_idx(show_all, inverted, end_vector, n_start, xl, y, center)
        } else {
            0
        };
        let hi: u8 = if clamped.contains(Point::new(xl + 1, y)) {
            loader_get_pixel_color_idx(show_all, inverted, end_vector, n_start, xl + 1, y, center)
        } else {
            0
        };
        buf.push(lo + 16 * hi);
        j = j + 1;
    }
    proof {
        assert(buf@ =~= spec_packed_row(
            clamped,
            center,
            show_all,
            inverted,
            end_vector,
            n_start,
            x0 as int,
            w as int,
            y as int,
        ));
    }
    buf
}

/// Copies row `y_i` of the icon bitmap into a fresh line buffer at the
/// given byte offset, zeros elsewhere.
fn icon_row_buffer(data: &[u8], iw: i32, y_i: i32, offset: i32, row_bytes: i32) -> (buf: Vec<u8>)
    requires
        0 <= offset,
        0 <= iw,
        iw % 2 == 0,
        0 <= y_i,
        offset + iw / 2 <= row_bytes,
        ((y_i + 1) as int) * (iw as int / 2) <= data@.len(),
        data@.len() <= 65536,
    ensures
        buf@ == Seq::new(
            row_bytes as nat,
            |j: int|
                if offset <= j < offset + iw as int / 2 {
                    data@[(y_i as int) * (iw as int / 2) + (j - offset)]
                } else {
                    0u8
                },
        ),
{
    let half = iw / 2;
    proof {
        assert(0 <= (y_i as int) * (half as int) && ((y_i + 1) as int) * (half as int) == (
        y_i as int) * (half as int) + half as int) by (nonlinear_arith)
            requires
                0 <= y_i,
                0 <= half,
        ;
    }
    let base = y_i * half;
    let mut buf: Vec<u8> = Vec::new();
    let mut j: i32 = 0;
    while j < row_bytes
        invariant
            0 <= j <= row_bytes,
            0 <= offset,
            0 <= half,
            half == iw as int / 2,
            offset + half <= row_bytes,
            0 <= y_i,
            base == (y_i as int) * (half as int),
            base as int + half as int <= data@.len(),
            data@.len() <= 65536,
            buf@.len() == j as int,
            forall|t: int|
                0 <= t < j as int ==> buf@[t] == (if offset <= t < offset + half as int {
                    data@[(y_i as int) * (half as int) + (t - offset)]
                } else {
                    0u8
                }),
        decreases row_bytes - j,
    {
        if offset <= j && j < offset + half {
            buf.push(data[(base + (j - offset)) as usize]);
        } else {
            buf.push(0u8);
        }
        j = j + 1;
    }
    proof {
        assert(buf@ =~= Seq::new(
            row_bytes as nat,
            |t: int|
                if offset <= t < offset + iw as int / 2 {
                    data@[(y_i as int) * (iw as int / 2) + (t - offset)]
                } else {
                    0u8
                },
        ));
    }
    buf
}

/// Renders the loader through the blit engine, two alternating
/// line-buffer pairs feeding one in-flight transfer.
///
/// Each scanline is packed into the buffer pair of its row parity while
/// the previous line's transfer is still in flight, then the engine is
/// waited out and the new line's blend issued; a final wait commits the
/// last row before returning. Pixels of the rectangle outside the
/// screen-clamped window pack as intensity 0 and so blend to plain
/// background, as the software path resolves them. Icons reaching
/// outside the inner disk are blended as they are: unlike the software
/// path this backend does no circular corner clipping, so such icons
/// must have transparent (zero-nibble) corners. With an icon, the
/// icon's centered span must start on-screen (its row bytes are copied
/// whole into the line buffer at that offset, so a span hanging off the
/// left screen edge has no place in the line).
#[verifier::rlimit(60)]
pub fn loader_rust(
    r: Rect,
    fg_color: Color,
    bg_color: Color,
    progress: i32,
    indeterminate: bool,
    icon: Option<(&[u8], Color, Offset)>,
) -> (engine: BlitEngine)
    requires
        r.ok(),
        (r.x1 - r.x0) % 2 == 0,
        0 <= progress <= 0xffff,
        (match icon {
            Some((data, _, size)) => data@.len() == ICON_DATA_BYTES && size.ok() && size.x % 2
                == 0 && size.x <= r.x1 - r.x0 && size.x <= ICON_MAX_SIZE && size.y
                <= ICON_MAX_SIZE && r.x0 + (r.x1 - r.x0) / 2 - size.x / 2 >= 0,
            None => true,
        }),
    ensures
        engine.fg_color == fg_color,
        engine.bg_color == bg_color,
        engine.icon_color == spec_accel_icon_color(view_icon(icon)),
        engine.pending is None,
        engine.waits == r.y1 - r.y0 + 1,
        engine.events@ == spec_blit_events(r),
        engine.committed@ == spec_accel_stream(
            r,
            fg_color,
            bg_color,
            progress as int,
            indeterminate,
            view_icon(icon),
        ),
{
    let ghost iv = view_icon(icon);

    let clamped = r.clamp(screen());
    let center = r.center();

    let mut use_icon = false;
    let mut icon_area = Rect::zero();
    let mut icon_area_clamped = Rect::zero();
    let mut icon_width: i32 = 0;
    let mut icon_offset: i32 = 0;
    let mut icon_color = Color::from_u16(0);

    match icon {
        Some((_, color, size)) => {
            if size.x <= ICON_MAX_SIZE && size.y <= ICON_MAX_SIZE {
                icon_width = size.x;
                icon_area = Rect::from_center_and_size(center, size);
                icon_area_clamped = icon_area.clamp(screen());
                icon_offset = (icon_area_clamped.x0 - r.x0) / 2;
                icon_color = color;
                use_icon = true;
            }
        },
        None => {},
    }

    let show_all = !indeterminate && progress >= 1000;
    let inverted = !indeterminate && progress > 500;
    let vs = get_loader_vectors(indeterminate, progress);
    let end_vector = vs.1;
    let n_start = Point::new(-vs.0.y, vs.0.x);

    let w = r.width();
    let row_bytes = w / 2;

    proof {
        if use_icon {
            assert(icon_area.x0 >= r.x0 && icon_area.x1 <= r.x1);
            assert(icon_area.x0 >= 0);
            assert(icon_area_clamped.x0 == icon_area.x0);
            assert(0 <= icon_offset);
            assert(icon_offset as int + icon_width as int / 2 <= row_bytes as int);
        }
    }

    let mut b1 = zero_row(row_bytes as usize);
    let mut b2 = zero_row(row_bytes as usize);
    let mut ib1 = zero_row(row_bytes as usize);
    let mut ib2 = zero_row(row_bytes as usize);
    let empty_line = zero_row(row_bytes as usize);

    let mut engine = BlitEngine::setup_4bpp_over_4bpp(fg_color, bg_color, icon_color);

    let ghost strm = spec_accel_stream(
        r,
        fg_color,
        bg_color,
        progress as int,
        indeterminate,
        iv,
    );

    let mut y_c = r.y0;
    while y_c < r.y1
        invariant
            r.ok(),
            0 <= progress <= 0xffff,
            (match icon {
                Some((data, _, size)) => data@.len() == ICON_DATA_BYTES && size.ok() && size.x % 2
                    == 0 && size.x <= r.x1 - r.x0 && size.x <= ICON_MAX_SIZE && size.y
                    <= ICON_MAX_SIZE,
                None => true,
            }),
            iv == view_icon(icon),
            strm == spec_accel_stream(
                r,
                fg_color,
                bg_color,
                progress as int,
                indeterminate,
                iv,
            ),
            clamped == r.spec_clamp(spec_screen()),
            center == r.spec_center(),
            center.ok(),
            use_icon == spec_icon_active(iv),
            use_icon ==> icon_area == Rect::spec_from_center_and_size(center, spec_icon_size(iv)),
            use_icon ==> icon_area_clamped == icon_area.spec_clamp(spec_screen()),
            use_icon ==> icon_width == spec_icon_size(iv).x,
            use_icon ==> icon_offset as int == (icon_area_clamped.x0 as int - r.x0 as int) / 2,
            use_icon ==> 0 <= icon_offset && icon_offset as int + icon_width as int / 2
                <= row_bytes as int,
            use_icon ==> icon_area.y0 <= icon_area_clamped.y0,
            icon_color == spec_accel_icon_color(iv),
            show_all == spec_show_all(indeterminate, progress as int),
            inverted == spec_inverted(indeterminate, progress as int),
            (vs.0, vs.1) == spec_loader_vectors(indeterminate, progress as int),
            -450 <= vs.0.x <= 450,
            -450 <= vs.0.y <= 450,
            end_vector == vs.1,
            n_start.x == -(vs.0.y as int),
            n_start.y == vs.0.x,
            w == r.x1 - r.x0,
            w % 2 == 0,
            row_bytes == w as int / 2,
            empty_line@ == Seq::new(row_bytes as nat, |j: int| 0u8),
            engine.fg_color == fg_color,
            engine.bg_color == bg_color,
            engine.icon_color == spec_accel_icon_color(iv),
            r.y0 <= y_c <= r.y1,
            engine.waits == y_c - r.y0,
            engine.events@ == spec_blit_events(r).take(2 * (y_c - r.y0)),
            y_c == r.y0 ==> engine.pending is None && engine.committed@.len() == 0,
            y_c > r.y0 ==> (engine.pending matches Some((row, s)) && row@ == spec_blend_row(
                fg_color,
                bg_color,
                spec_accel_icon_color(iv),
                spec_icon_row(r, iv, y_c - 1),
                spec_loader_row(r, progress as int, indeterminate, y_c - 1),
                w as int,
            ) && s as int == (y_c - 1) % 2),
            y_c > r.y0 ==> engine.committed@ == strm.take((y_c - 1 - r.y0) * (w as int)),
        decreases r.y1 - y_c,
    {
        let slot: u8 = if y_c % 2 == 0 {
            0
        } else {
            1
        };

        // The slot about to be refilled is never the one whose transfer
        // is still in flight: the in-flight row is the previous line,
        // whose parity differs.
        proof {
            if y_c > r.y0 {
                assert((y_c - 1) % 2 != y_c as int % 2);
            }
            assert(match engine.pending {
                Some((_, s)) => s != slot,
                None => true,
            });
        }

        let icon_row_active = use_icon && y_c >= icon_area_clamped.y0 && y_c
            < icon_area_clamped.y1;

        if icon_row_active {
            match icon {
                Some((data, _, _)) => {
                    let y_i = y_c - icon_area.y0;
                    proof {
                        assert(icon_area.y1 == icon_area.y0 + spec_icon_size(iv).y);
                        assert(icon_area_clamped.y1 <= icon_area.y1);
                        assert(((y_i + 1) as int) * (icon_width as int / 2) <= data@.len())
                            by (nonlinear_arith)
                            requires
                                0 <= y_i,
                                y_i < 64,
                                0 <= icon_width as int / 2 <= 32,
                                data@.len() == 2048,
                        ;
                    }
                    if slot == 0 {
                        ib1 = icon_row_buffer(data, icon_width, y_i, icon_offset, row_bytes);
                    } else {
                        ib2 = icon_row_buffer(data, icon_width, y_i, icon_offset, row_bytes);
                    }
                },
                None => {},
            }
        }

        if slot == 0 {
            b1 = pack_loader_row(
                clamped,
                center,
                show_all,
                inverted,
                end_vector,
                n_start,
                r.x0,
                w,
                y_c,
            );
        } else {
            b2 = pack_loader_row(
                clamped,
                center,
                show_all,
                inverted,
                end_vector,
                n_start,
                r.x0,
                w,
                y_c,
            );
        }

        let ghost pre_commit = engine.committed@;
        let ghost pre_pending = engine.pending;
        engine.wait_for_transfer();
        proof {
            let wI = w as int;
            if y_c == r.y0 {
                assert(engine.committed@ =~= strm.take(0 * wI));
            } else {
                let k = y_c - 1 - r.y0;
                assert((k + 1) * wI == k * wI + wI) by (nonlinear_arith);
                assert((y_c - r.y0) * wI <= (r.y1 - r.y0) * wI) by (nonlinear_arith)
                    requires
                        y_c <= r.y1,
                        wI >= 0,
                ;
                assert(strm.len() == wI * (r.y1 - r.y0));
                assert(wI * (r.y1 - r.y0) == (r.y1 - r.y0) * wI) by (nonlinear_arith);
                assert forall|i: int| k * wI <= i < (k + 1) * wI implies strm[i] == engine.committed@[i] by {
                    lemma_fundamental_div_mod_converse(i, wI, k, i - k * wI);
                }
                assert(engine.committed@ =~= strm.take((y_c - r.y0) * wI));
            }
        }

        let lb: &Vec<u8> = if slot == 0 { &b1 } else { &b2 };
        let ib: &Vec<u8> = if icon_row_active {
            if slot == 0 { &ib1 } else { &ib2 }
        } else {
            &empty_line
        };
        proof {
            assert(ib@ =~= spec_icon_row(r, iv, y_c as int));
        }
        engine.start_blend(ib.as_slice(), lb.as_slice(), w, slot);
        proof {
            let ghost ev = spec_blit_events(r);
            assert(ev.len() == 2 * (r.y1 - r.y0) + 1);
            assert((2 * (y_c - r.y0)) % 2 == 0);
            assert((2 * (y_c - r.y0) + 1) / 2 == y_c - r.y0);
            assert(engine.events@ =~= ev.take(2 * (y_c + 1 - r.y0)));
        }
        y_c = y_c + 1;
    }

    engine.wait_for_transfer();
    proof {
        let wI = w as int;
        let h = r.y1 - r.y0;
        if h == 0 {
            assert(wI * h == 0) by (nonlinear_arith)
                requires
                    h == 0,
            ;
            assert(engine.committed@ =~= strm);
        } else {
            let k = h - 1;
            assert((k + 1) * wI == k * wI + wI) by (nonlinear_arith);
            assert(strm.len() == wI * h);
            assert(wI * h == h * wI) by (nonlinear_arith);
            assert forall|i: int| k * wI <= i < (k + 1) * wI implies strm[i] == engine.committed@[i] by {
                lemma_fundamental_div_mod_converse(i, wI, k, i - k * wI);
            }
            assert(engine.committed@ =~= strm);
        }
        assert(engine.events@ =~= spec_blit_events(r));
    }
    engine
}

/// How many blocking waits an event log holds.
pub open spec fn spec_count_waits(s: Seq<BlitEvent>) -> int
    decreases s.len(),
{
    if s.len() == 0 {
        0
    } else {
        spec_count_waits(s.drop_last()) + (if s.last() is Wait {
            1int
        } else {
            0int
        })
    }
}

/// Waits in a prefix of the render event log: one per started pair plus
/// the pair-opening wait of a half-finished pair.
proof fn lemma_count_waits_prefix(r: Rect, k: int)
    requires
        0 <= k <= 2 * (r.y1 - r.y0) + 1,
    ensures
        spec_count_waits(spec_blit_events(r).take(k)) == (k + 1) / 2,
    decreases k,
{
    let ev = spec_blit_events(r);
    if k == 0 {
        assert(spec_count_waits(ev.take(0)) == 0);
    } else {
        lemma_count_waits_prefix(r, k - 1);
        assert(ev.take(k).drop_last() =~= ev.take(k - 1));
        assert(ev.take(k).last() == ev[k - 1]);
        if (k - 1) % 2 == 0 {
            assert(ev[k - 1] is Wait);
        } else {
            assert(!(ev[k - 1] is Wait));
        }
    }
}

/// Law: a render of `n` scanlines makes exactly `n + 1` blocking waits —
/// one per issued transfer plus one trailing — and every blend in the
/// log is issued immediately after a wait, so the transfer previously
/// in flight (in particular the prior transfer on the same buffer slot)
/// has completed before any line buffer is handed to the engine again.
pub proof fn lemma_blit_wait_discipline(r: Rect)
    requires
        r.y0 <= r.y1,
    ensures
        spec_count_waits(spec_blit_events(r)) == r.y1 - r.y0 + 1,
        forall|i: int|
            0 <= i < spec_blit_events(r).len() && #[trigger] spec_blit_events(r)[i] is Blend
                ==> i >= 1 && spec_blit_events(r)[i - 1] is Wait,
{
    let ev = spec_blit_events(r);
    lemma_count_waits_prefix(r, 2 * (r.y1 - r.y0) + 1);
    assert(ev.take(2 * (r.y1 - r.y0) + 1) =~= ev);
    assert forall|i: int| 0 <= i < ev.len() && #[trigger] ev[i] is Blend implies i >= 1 && ev[i
        - 1] is Wait by {
        assert(i % 2 == 1);
    }
}

} // verus!
