use loader::color::Color;
use loader::color::get_color_table;
use loader::geometry::Offset;
use loader::geometry::Rect;
use loader::render::LoaderError;
use loader::render::loader;
use loader::render::loader_indeterminate;
use loader::render::loader_uncompress;
use loader::soft::loader_rust;

const FG: u16 = 0xFFFF;
const BG: u16 = 0x0000;

/// Builds a compressed icon: `TOI` magic, format letter, 16-bit width
/// and height, 32-bit payload size, then the deflate stream.
fn toif(format: u8, w: u16, h: u16, payload: &[u8]) -> Vec<u8> {
    let mut v = vec![b'T', b'O', b'I', format];
    v.extend_from_slice(&w.to_le_bytes());
    v.extend_from_slice(&h.to_le_bytes());
    v.extend_from_slice(&(payload.len() as u32).to_le_bytes());
    v.extend_from_slice(payload);
    v
}

fn icon_bytes(w: u16, h: u16, bitmap: &[u8]) -> Vec<u8> {
    let compressed = miniz_oxide::deflate::compress_to_vec(bitmap, 6);
    toif(b'G', w, h, &compressed)
}

fn at(pixels: &[Color], x: i32, y: i32) -> u16 {
    pixels[((y - 60) * 120 + (x - 60)) as usize].to_u16()
}

#[test]
fn zero_progress_renders_inactive_banding_only() {
    let frame = loader(0, 0, Color::from_u16(FG), Color::from_u16(BG), None).unwrap();
    assert_eq!(frame.window, Rect { x0: 60, y0: 60, x1: 180, y1: 180 });
    assert_eq!(frame.pixels.len(), 120 * 120);
    // center of the disk: background
    assert_eq!(at(&frame.pixels, 120, 120), BG);
    // thin full-intensity ring of the track at d = 43^2
    assert_eq!(at(&frame.pixels, 163, 120), FG);
    // dim plateau of the track at d = 45^2: gradient entry 5
    assert_eq!(at(&frame.pixels, 165, 120), 10 * 2048 + 21 * 32 + 10);
    // outer antialiasing of the track at d = 59^2: entry 3
    assert_eq!(at(&frame.pixels, 179, 120), 6 * 2048 + 12 * 32 + 6);
    // no active-wedge plateau appears anywhere on that radius
    assert_eq!(at(&frame.pixels, 120, 75), 10 * 2048 + 21 * 32 + 10);
    assert_eq!(at(&frame.pixels, 120, 165), 10 * 2048 + 21 * 32 + 10);
    assert_eq!(at(&frame.pixels, 75, 120), 10 * 2048 + 21 * 32 + 10);
}

#[test]
fn full_progress_renders_active_banding_only() {
    let frame = loader(1000, 0, Color::from_u16(FG), Color::from_u16(BG), None).unwrap();
    // the whole ring holds at full intensity through d = 45^2 and 50^2
    assert_eq!(at(&frame.pixels, 165, 120), FG);
    assert_eq!(at(&frame.pixels, 120, 75), FG);
    assert_eq!(at(&frame.pixels, 75, 120), FG);
    // outer antialiasing of the active ring at d = 59^2: entry 8
    assert_eq!(at(&frame.pixels, 179, 120), 16 * 2048 + 33 * 32 + 16);
    assert_eq!(at(&frame.pixels, 120, 120), BG);
}

#[test]
fn rendering_twice_is_identical() {
    let bitmap = [0xFFu8; 4];
    let data = icon_bytes(4, 2, &bitmap);
    let icon = Some((data.as_slice(), Color::from_u16(0xF800)));
    let f1 = loader(333, 7, Color::from_u16(FG), Color::from_u16(BG), icon).unwrap();
    let f2 = loader(333, 7, Color::from_u16(FG), Color::from_u16(BG), icon).unwrap();
    assert_eq!(f1.window, f2.window);
    assert_eq!(f1.pixels.len(), f2.pixels.len());
    for (a, b) in f1.pixels.iter().zip(f2.pixels.iter()) {
        assert_eq!(a.to_u16(), b.to_u16());
    }
}

#[test]
fn oversized_icon_renders_as_no_icon() {
    // one unit above the fixed maximum of 64, payload never touched
    let data = toif(b'G', 65, 2, &[0xAA, 0xBB]);
    let with = loader(
        400,
        0,
        Color::from_u16(FG),
        Color::from_u16(BG),
        Some((data.as_slice(), Color::from_u16(0xF800))),
    )
    .unwrap();
    let tall = toif(b'G', 2, 65, &[0xAA, 0xBB]);
    let with_tall = loader(
        400,
        0,
        Color::from_u16(FG),
        Color::from_u16(BG),
        Some((tall.as_slice(), Color::from_u16(0xF800))),
    )
    .unwrap();
    let without = loader(400, 0, Color::from_u16(FG), Color::from_u16(BG), None).unwrap();
    assert_eq!(with.pixels.len(), without.pixels.len());
    for i in 0..without.pixels.len() {
        assert_eq!(with.pixels[i].to_u16(), without.pixels[i].to_u16());
        assert_eq!(with_tall.pixels[i].to_u16(), without.pixels[i].to_u16());
    }
}

#[test]
fn icon_pixels_resolve_from_icon_bitmap() {
    // a 4x2 icon of full-intensity nibbles renders as solid icon color
    let bitmap = [0xFFu8; 4];
    let data = icon_bytes(4, 2, &bitmap);
    let icon_color = 0xF800;
    let frame = loader(
        0,
        0,
        Color::from_u16(FG),
        Color::from_u16(BG),
        Some((data.as_slice(), Color::from_u16(icon_color))),
    )
    .unwrap();
    // icon area centered at (120, 120): x 118..122, y 119..121
    for y in 119..121 {
        for x in 118..122 {
            assert_eq!(at(&frame.pixels, x, y), icon_color);
        }
    }
    // just outside the icon area the loader shows plain background
    assert_eq!(at(&frame.pixels, 117, 119), BG);
    assert_eq!(at(&frame.pixels, 122, 120), BG);
}

#[test]
fn icon_nibbles_select_gradient_entries() {
    // low nibble = even column, high nibble = odd column
    let bitmap = [0x0F, 0x00, 0xF0, 0x00];
    let data = icon_bytes(4, 2, &bitmap);
    let icon_color = 0xF800;
    let table = get_color_table(Color::from_u16(icon_color), Color::from_u16(BG));
    let frame = loader(
        0,
        0,
        Color::from_u16(FG),
        Color::from_u16(BG),
        Some((data.as_slice(), Color::from_u16(icon_color))),
    )
    .unwrap();
    // row 0: nibbles 15, 0, 0, 0 across columns 118..122
    assert_eq!(at(&frame.pixels, 118, 119), table.get(15).to_u16());
    assert_eq!(at(&frame.pixels, 119, 119), table.get(0).to_u16());
    // row 1: nibbles 0, 15, 0, 0
    assert_eq!(at(&frame.pixels, 118, 120), table.get(0).to_u16());
    assert_eq!(at(&frame.pixels, 119, 120), table.get(15).to_u16());
}

#[test]
fn unparseable_header_is_invalid_toif() {
    let r = Rect { x0: 60, y0: 60, x1: 180, y1: 180 };
    let bad_magic = vec![0u8; 16];
    let res = loader_uncompress(
        r,
        Color::from_u16(FG),
        Color::from_u16(BG),
        100,
        false,
        Some((bad_magic.as_slice(), Color::from_u16(0xF800))),
    );
    assert_eq!(res.unwrap_err(), LoaderError::InvalidToif);

    let short = [b'T', b'O', b'I', b'G'];
    let res = loader_uncompress(
        r,
        Color::from_u16(FG),
        Color::from_u16(BG),
        100,
        false,
        Some((short.as_slice(), Color::from_u16(0xF800))),
    );
    assert_eq!(res.unwrap_err(), LoaderError::InvalidToif);
}

#[test]
fn wrong_format_is_invalid_toif() {
    let data = toif(b'f', 4, 2, &[0, 0]);
    let res = loader(
        100,
        0,
        Color::from_u16(FG),
        Color::from_u16(BG),
        Some((data.as_slice(), Color::from_u16(0xF800))),
    );
    assert_eq!(res.unwrap_err(), LoaderError::InvalidToif);
}

#[test]
fn malformed_stream_is_decompress_failed() {
    // reserved deflate block type
    let data = toif(b'G', 4, 2, &[0xFF, 0xFF, 0xFF]);
    let res = loader(
        100,
        0,
        Color::from_u16(FG),
        Color::from_u16(BG),
        Some((data.as_slice(), Color::from_u16(0xF800))),
    );
    assert_eq!(res.unwrap_err(), LoaderError::DecompressFailed);
}

#[test]
fn overlong_stream_is_decompress_failed() {
    // decompresses to more than the fixed 2048-byte scratch buffer
    let big = vec![0u8; 4096];
    let data = icon_bytes(64, 64, &big);
    let res = loader(
        100,
        0,
        Color::from_u16(FG),
        Color::from_u16(BG),
        Some((data.as_slice(), Color::from_u16(0xF800))),
    );
    assert_eq!(res.unwrap_err(), LoaderError::DecompressFailed);
}

#[test]
fn indeterminate_band_renders_and_moves() {
    let f1 = loader_indeterminate(0, 0, Color::from_u16(FG), Color::from_u16(BG), None).unwrap();
    let f2 = loader_indeterminate(500, 0, Color::from_u16(FG), Color::from_u16(BG), None).unwrap();
    assert_eq!(f1.pixels.len(), 120 * 120);
    // the band centered differently must change some pixel
    let mut differs = false;
    for i in 0..f1.pixels.len() {
        if f1.pixels[i].to_u16() != f2.pixels[i].to_u16() {
            differs = true;
            break;
        }
    }
    assert!(differs);
}

#[test]
fn direct_rasterizer_accepts_preexpanded_icon() {
    // calling the rasterizer with the scratch buffer directly matches
    // the pipeline output for the same icon
    let bitmap = [0xFFu8; 4];
    let mut padded = bitmap.to_vec();
    padded.resize(2048, 0);
    let r = Rect { x0: 60, y0: 60, x1: 180, y1: 180 };
    let direct = loader_rust(
        r,
        Color::from_u16(FG),
        Color::from_u16(BG),
        0,
        false,
        Some((padded.as_slice(), Color::from_u16(0xF800), Offset { x: 4, y: 2 })),
    );
    let data = icon_bytes(4, 2, &bitmap);
    let piped = loader(
        0,
        0,
        Color::from_u16(FG),
        Color::from_u16(BG),
        Some((data.as_slice(), Color::from_u16(0xF800))),
    )
    .unwrap();
    assert_eq!(direct.pixels.len(), piped.pixels.len());
    for i in 0..direct.pixels.len() {
        assert_eq!(direct.pixels[i].to_u16(), piped.pixels[i].to_u16());
    }
}
