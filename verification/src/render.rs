//! Public entry points: icon validation and decompression, fixed loader
//! placement, and dispatch to the rasterizer.

use vstd::prelude::*;

use crate::color::Color;
use crate::constant::HEIGHT;
use crate::constant::ICON_MAX_SIZE;
use crate::constant::LOADER_SIZE;
use crate::constant::WIDTH;
use crate::constant::spec_screen;
use crate::geometry::Offset;
use crate::geometry::Point;
use crate::geometry::Rect;
use crate::icon::ToifFormat;
use crate::icon::inflate_of;
use crate::icon::inflate_ok;
use crate::icon::spec_pad_icon;
use crate::icon::spec_toif_header;
use crate::icon::toif_info;
use crate::icon::uncompress_icon;
use crate::soft::LoaderFrame;
use crate::soft::loader_rust;
use crate::soft::spec_frame_seq;
use crate::soft::spec_icon_active;
use vstd::slice::slice_subrange;

verus! {

/// The two fatal icon conditions: an unparseable or wrong-format header,
/// and a failed decompression. Both indicate corrupted assets.
#[derive(Clone, Copy, PartialEq, Eq, Structural, Debug)]
pub enum LoaderError {
    InvalidToif,
    DecompressFailed,
}

/// What the icon pipeline hands the rasterizer for a compressed icon
/// argument: the decompressed bitmap in the fixed scratch buffer,
/// the icon color, and the extent the header announced.
pub open spec fn spec_icon_payload(data: Seq<u8>, color: Color) -> Option<
    (Seq<u8>, Color, Offset),
> {
    match spec_toif_header(data) {
        Some(info) => Some(
            (
                spec_pad_icon(inflate_of(data.subrange(12, data.len() as int))),
                color,
                Offset { x: info.width as i32, y: info.height as i32 },
            ),
        ),
        None => None,
    }
}

/// The rendering outcome `loader_uncompress` owes for its arguments:
/// exactly when the icon header is unparseable or of the wrong format the
/// result is the invalid-header error; an icon above the fixed maximum
/// size renders as if absent; a fitting icon renders with its
/// decompressed bitmap, the decompression-failure error coming exactly
/// when its stream does not decompress within the scratch buffer.
pub open spec fn spec_render_outcome(
    r: Rect,
    fg_color: Color,
    bg_color: Color,
    progress: int,
    indeterminate: bool,
    icon: Option<(Seq<u8>, Color)>,
    res: Result<LoaderFrame, LoaderError>,
) -> bool {
    match icon {
        None => (match res {
            Ok(frame) => frame.window == r.spec_clamp(spec_screen()) && frame.pixels@
                == spec_frame_seq(r, fg_color, bg_color, progress, indeterminate, None),
            Err(_) => false,
        }),
        Some((data, color)) => (match spec_toif_header(data) {
            None => res == Result::<LoaderFrame, LoaderError>::Err(LoaderError::InvalidToif),
            Some(info) => if info.format != ToifFormat::GrayScaleEH {
                res == Result::<LoaderFrame, LoaderError>::Err(LoaderError::InvalidToif)
            } else if info.width <= ICON_MAX_SIZE as u16 && info.height <= ICON_MAX_SIZE as u16 {
                if inflate_ok(data.subrange(12, data.len() as int)) {
                    match res {
                        Ok(frame) => frame.window == r.spec_clamp(spec_screen()) && frame.pixels@
                            == spec_frame_seq(
                            r,
                            fg_color,
                            bg_color,
                            progress,
                            indeterminate,
                            spec_icon_payload(data, color),
                        ),
                        Err(_) => false,
                    }
                } else {
                    res == Result::<LoaderFrame, LoaderError>::Err(LoaderError::DecompressFailed)
                }
            } else {
                match res {
                    Ok(frame) => frame.window == r.spec_clamp(spec_screen()) && frame.pixels@
                        == spec_frame_seq(r, fg_color, bg_color, progress, indeterminate, None),
                    Err(_) => false,
                }
            },
        }),
    }
}

/// View of an optional compressed-icon argument.
pub open spec fn view_compressed_icon(icon: Option<(&[u8], Color)>) -> Option<(Seq<u8>, Color)> {
    match icon {
        Some((data, color)) => Some((data@, color)),
        None => None,
    }
}

/// Validates and decompresses an optional icon, then renders the loader.
///
/// An unparseable header or a header of the wrong pixel format is
/// reported as invalid (callers treat both as fatal); an icon
/// larger than the fixed maximum is silently dropped; a malformed or
/// oversized compressed stream is reported as a decompression failure.
pub fn loader_uncompress(
    r: Rect,
    fg_color: Color,
    bg_color: Color,
    progress: i32,
    indeterminate: bool,
    icon: Option<(&[u8], Color)>,
) -> (res: Result<LoaderFrame, LoaderError>)
    requires
        r.ok(),
        0 <= progress <= 0xffff,
    ensures
        spec_render_outcome(
            r,
            fg_color,
            bg_color,
            progress as int,
            indeterminate,
            view_compressed_icon(icon),
            res,
        ),
{
    match icon {
        Some((data, color)) => {
            match toif_info(data) {
                Some(info) => {
                    if info.format != ToifFormat::GrayScaleEH {
                        Err(LoaderError::InvalidToif)
                    } else if info.width <= ICON_MAX_SIZE as u16 && info.height
                        <= ICON_MAX_SIZE as u16 {
                        let payload = slice_subrange(data, 12, data.len());
                        match uncompress_icon(payload) {
                            Some(icon_data) => {
                                let size = Offset::new(info.width as i32, info.height as i32);
                                Ok(
                                    loader_rust(
                                        r,
                                        fg_color,
                                        bg_color,
                                        progress,
                                        indeterminate,
                                        Some((icon_data.as_slice(), color, size)),
                                    ),
                                )
                            },
                            None => Err(LoaderError::DecompressFailed),
                        }
                    } else {
                        Ok(loader_rust(r, fg_color, bg_color, progress, indeterminate, None))
                    }
                },
                None => Err(LoaderError::InvalidToif),
            }
        },
        None => Ok(loader_rust(r, fg_color, bg_color, progress, indeterminate, None)),
    }
}

/// The loader's fixed placement: a square of twice the outer radius,
/// centered on the display and shifted down by `y_offset`.
pub open spec fn spec_loader_area(y_offset: int) -> Rect {
    Rect {
        x0: ((WIDTH - LOADER_SIZE) / 2) as i32,
        y0: ((HEIGHT - LOADER_SIZE) / 2 + y_offset) as i32,
        x1: ((WIDTH - LOADER_SIZE) / 2 + LOADER_SIZE) as i32,
        y1: ((HEIGHT - LOADER_SIZE) / 2 + y_offset + LOADER_SIZE) as i32,
    }
}

/// Draws a determinate loader at the fixed placement.
pub fn loader(
    progress: u16,
    y_offset: i32,
    fg_color: Color,
    bg_color: Color,
    icon: Option<(&[u8], Color)>,
) -> (res: Result<LoaderFrame, LoaderError>)
    requires
        -500000 <= y_offset <= 500000,
    ensures
        spec_render_outcome(
            spec_loader_area(y_offset as int),
            fg_color,
            bg_color,
            progress as int,
            false,
            view_compressed_icon(icon),
            res,
        ),
{
    let x = (WIDTH - LOADER_SIZE) / 2;
    let y = ((HEIGHT - LOADER_SIZE) / 2) + y_offset;
    let area = Rect::from_top_left_and_size(
        Point::new(x, y),
        Offset::new(LOADER_SIZE, LOADER_SIZE),
    );
    loader_uncompress(area, fg_color, bg_color, progress as i32, false, icon)
}

/// Draws an indeterminate loader at the fixed placement.
pub fn loader_indeterminate(
    progress: u16,
    y_offset: i32,
    fg_color: Color,
    bg_color: Color,
    icon: Option<(&[u8], Color)>,
) -> (res: Result<LoaderFrame, LoaderError>)
    requires
        -500000 <= y_offset <= 500000,
    ensures
        spec_render_outcome(
            spec_loader_area(y_offset as int),
            fg_color,
            bg_color,
            progress as int,
            true,
            view_compressed_icon(icon),
            res,
        ),
{
    let x = (WIDTH - LOADER_SIZE) / 2;
    let y = ((HEIGHT - LOADER_SIZE) / 2) + y_offset;
    let area = Rect::from_top_left_and_size(
        Point::new(x, y),
        Offset::new(LOADER_SIZE, LOADER_SIZE),
    );
    loader_uncompress(area, fg_color, bg_color, progress as i32, true, icon)
}

/// Law: rendering is idempotent — two frames produced from the same
/// rectangle, colors, progress, mode and icon carry identical pixel
/// streams, since the contract pins the stream to a function of the
/// arguments alone.
pub proof fn lemma_render_idempotent(
    f1: LoaderFrame,
    f2: LoaderFrame,
    r: Rect,
    fg_color: Color,
    bg_color: Color,
    progress: int,
    indeterminate: bool,
    icon: Option<(Seq<u8>, Color, Offset)>,
)
    requires
        f1.pixels@ == spec_frame_seq(r, fg_color, bg_color, progress, indeterminate, icon),
        f2.pixels@ == spec_frame_seq(r, fg_color, bg_color, progress, indeterminate, icon),
    ensures
        f1.pixels@ == f2.pixels@,
{
}

/// Law: an icon even one unit above the fixed maximum in either
/// dimension renders exactly as no icon at all.
pub proof fn lemma_oversized_icon_ignored(
    r: Rect,
    fg_color: Color,
    bg_color: Color,
    progress: int,
    indeterminate: bool,
    data: Seq<u8>,
    color: Color,
    size: Offset,
)
    requires
        size.x > ICON_MAX_SIZE || size.y > ICON_MAX_SIZE,
    ensures
        spec_frame_seq(r, fg_color, bg_color, progress, indeterminate, Some((data, color, size)))
            == spec_frame_seq(r, fg_color, bg_color, progress, indeterminate, None),
{
    assert(!spec_icon_active(Some((data, color, size))));
    assert(spec_frame_seq(r, fg_color, bg_color, progress, indeterminate, Some((data, color, size)))
        =~= spec_frame_seq(r, fg_color, bg_color, progress, indeterminate, None));
}

} // verus!
