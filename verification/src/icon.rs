//! Icon handling: the compressed-icon header, streaming decompression of
//! the 4-bit-per-pixel bitmap, and nibble sampling.

use vstd::prelude::*;

verus! {

/// Size in bytes of the fixed icon scratch buffer: a largest-size icon at
/// two pixels per byte.
pub const ICON_DATA_BYTES: usize = 2048;

/// Pixel encodings a compressed-icon header can announce.
#[derive(Clone, Copy, PartialEq, Eq, Structural, Debug)]
pub enum ToifFormat {
    FullColorBE,
    GrayScaleOH,
    FullColorLE,
    GrayScaleEH,
}

/// Header metadata of a compressed icon bitstream.
#[derive(Clone, Copy, PartialEq, Eq, Structural, Debug)]
pub struct ToifInfo {
    pub format: ToifFormat,
    pub width: u16,
    pub height: u16,
}

/// The header a compressed icon starts with, when well-formed: the three
/// magic bytes `TOI`, a format letter, then width and height as 16-bit
/// little-endian values (the 32-bit payload size field is not inspected).
pub open spec fn spec_toif_header(data: Seq<u8>) -> Option<ToifInfo> {
    if data.len() >= 12 && data[0] == 84u8 && data[1] == 79u8 && data[2] == 73u8 && (data[3]
        == 102u8 || data[3] == 70u8 || data[3] == 103u8 || data[3] == 71u8) {
        let format = if data[3] == 102u8 {
            ToifFormat::FullColorLE
        } else if data[3] == 70u8 {
            ToifFormat::FullColorBE
        } else if data[3] == 103u8 {
            ToifFormat::GrayScaleOH
        } else {
            ToifFormat::GrayScaleEH
        };
        Some(
            ToifInfo {
                format,
                width: (data[4] + 256 * data[5]) as u16,
                height: (data[6] + 256 * data[7]) as u16,
            },
        )
    } else {
        None
    }
}

/// Parses the header of a compressed icon, or reports it unparseable.
pub fn toif_info(data: &[u8]) -> (r: Option<ToifInfo>)
    ensures
        r == spec_toif_header(data@),
{
    if data.len() >= 12 && data[0] == 84u8 && data[1] == 79u8 && data[2] == 73u8 {
        let f = data[3];
        let format = if f == 102u8 {
            ToifFormat::FullColorLE
        } else if f == 70u8 {
            ToifFormat::FullColorBE
        } else if f == 103u8 {
            ToifFormat::GrayScaleOH
        } else if f == 71u8 {
            ToifFormat::GrayScaleEH
        } else {
            return None;
        };
        let width = data[4] as u16 + 256 * data[5] as u16;
        let height = data[6] as u16 + 256 * data[7] as u16;
        Some(ToifInfo { format, width, height })
    } else {
        None
    }
}

/// What raw-deflate decompression of a byte stream yields: a function of
/// the compressed bytes alone.
pub uninterp spec fn inflate_of(s: Seq<u8>) -> Seq<u8>;

/// Whether raw-deflate decompression of a byte stream completes within
/// the icon scratch-buffer size: like its result, a function of the
/// compressed bytes alone.
pub uninterp spec fn inflate_ok(s: Seq<u8>) -> bool;

/// Relies on `miniz_oxide::inflate::decompress_to_vec_with_limit`: raw
/// deflate decompression in one call, deterministic in the input bytes;
/// it returns `Ok` exactly when the whole stream decompresses within the
/// size limit, here the icon scratch-buffer size.
#[verifier::external_body]
fn inflate(data: &[u8]) -> (r: Option<Vec<u8>>)
    ensures
        r is Some <==> inflate_ok(data@),
        r matches Some(v) ==> v@ == inflate_of(data@) && v@.len() <= ICON_DATA_BYTES,
{
    match miniz_oxide::inflate::decompress_to_vec_with_limit(data, ICON_DATA_BYTES) {
        Ok(v) => Some(v),
        Err(_) => None,
    }
}

/// `s` extended with zero bytes to the icon scratch-buffer size.
pub open spec fn spec_pad_icon(s: Seq<u8>) -> Seq<u8> {
    s + Seq::new((ICON_DATA_BYTES - s.len()) as nat, |i: int| 0u8)
}

/// Decompresses a compressed icon payload into the fixed-size scratch
/// buffer, zero-filled past the end of the stream. Reports failure when
/// the stream is malformed or larger than the buffer.
pub fn uncompress_icon(data: &[u8]) -> (r: Option<Vec<u8>>)
    ensures
        r is Some <==> inflate_ok(data@),
        r matches Some(v) ==> v@ == spec_pad_icon(inflate_of(data@)) && v@.len()
            == ICON_DATA_BYTES,
{
    match inflate(data) {
        Some(mut v) => {
            while v.len() < ICON_DATA_BYTES
                invariant
                    v@.len() <= ICON_DATA_BYTES,
                    v@ == inflate_of(data@) + Seq::new(
                        (v@.len() - inflate_of(data@).len()) as nat,
                        |i: int| 0u8,
                    ),
                decreases ICON_DATA_BYTES - v@.len(),
            {
                v.push(0u8);
                proof {
                    assert(v@ =~= inflate_of(data@) + Seq::new(
                        (v@.len() - inflate_of(data@).len()) as nat,
                        |i: int| 0u8,
                    ));
                }
            }
            proof {
                assert(v@ =~= spec_pad_icon(inflate_of(data@)));
            }
            Some(v)
        },
        None => None,
    }
}

/// The 4-bit sample of the icon bitmap at pixel `(x, y)`: one byte holds
/// two horizontal pixels, the even column in the low nibble and the odd
/// column in the high nibble, rows packed at `width` nibbles apiece.
pub open spec fn spec_icon_nibble(data: Seq<u8>, width: int, x: int, y: int) -> int {
    let byte = data[(x - x % 2 + y * width) / 2] as int;
    if x % 2 == 0 {
        byte % 16
    } else {
        byte / 16
    }
}

/// Samples one icon pixel from the scratch buffer.
pub fn icon_nibble(data: &[u8], width: i32, x: i32, y: i32) -> (r: u8)
    requires
        0 <= x < width,
        width <= 64,
        0 <= y < 64,
        data@.len() == ICON_DATA_BYTES,
    ensures
        r as int == spec_icon_nibble(data@, width as int, x as int, y as int),
        r <= 15,
{
    proof {
        assert(0 <= (y as int) * (width as int) <= 4032) by (nonlinear_arith)
            requires
                0 <= (y as int) < 64,
                0 < (width as int) <= 64,
        ;
    }
    let xe = x - x % 2;
    let idx = ((xe + y * width) / 2) as usize;
    let b = data[idx];
    if x % 2 == 0 {
        b % 16
    } else {
        b / 16
    }
}

} // verus!
