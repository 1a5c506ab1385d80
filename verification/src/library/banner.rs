//! The banner picture.

use crate::library::state::{Banner, State};
use vstd::prelude::*;

verus! {

/// The layout of a picture's pixels.
#[derive(Clone, Copy, PartialEq, Eq, Structural, Debug)]
pub enum Pixels {
    Rgba,
    Rgb,
    GrayAlpha,
    Gray,
    Indexed,
}

/// A picture as it was decoded.
pub struct Decoded {
    pub width: u32,
    pub height: u32,
    pub pixels: Pixels,
    pub bytes: Vec<u8>,
}

/// The most pixels of a picture: at eight bytes each they fit into the memory space
/// of a machine with 32-bit addresses.
pub const MOST_PIXELS: u64 = 0x0fff_ffff;

/// The number in the four bytes from `i` on, the highest first.
pub open spec fn number_at(b: Seq<u8>, i: int) -> int {
    0x100_0000 * b[i] + 0x1_0000 * b[i + 1] + 0x100 * b[i + 2] + b[i + 3]
}

/// Can the pixels of a picture be held, by the width and the height that stand behind
/// the signature and the head of the first chunk?
pub open spec fn fits_memory(file: Seq<u8>) -> bool {
    file.len() >= 24 ==> number_at(file, 16) * number_at(file, 20) <= MOST_PIXELS
}

fn read_number(file: &[u8], i: usize) -> (r: u64)
    requires
        i + 4 <= file.len(),
    ensures
        r == number_at(file@, i as int),
        r <= u32::MAX,
{
    0x100_0000 * file[i] as u64 + 0x1_0000 * file[i + 1] as u64 + 0x100 * file[i + 2] as u64
        + file[i + 3] as u64
}

/// Can the pixels of a picture be held?
pub fn picture_fits(file: &[u8]) -> (r: bool)
    ensures
        r == fits_memory(file@),
{
    if file.len() < 24 {
        return true;
    }
    let w: u64 = read_number(file, 16);
    let h: u64 = read_number(file, 20);
    assert(w * h <= u64::MAX) by (nonlinear_arith)
        requires
            w <= u32::MAX,
            h <= u32::MAX,
    ;
    w * h <= MOST_PIXELS
}

/// What the `png` decoder makes of a file: width, height, layout and bytes.
pub uninterp spec fn decoded_png(file: Seq<u8>) -> Option<(u32, u32, Pixels, Seq<u8>)>;

/// `png::Decoder`: the header by `read_info`, then the first frame by `next_frame`.
/// Nothing where either fails. For a picture that fits into the memory space of every
/// machine both depend on the file alone; `output_buffer_size` fails on one that does
/// not fit into that of the machine at hand.
#[verifier::external_body]
fn decode_png(file: &[u8]) -> (r: Option<Decoded>)
    requires
        fits_memory(file@),
    ensures
        match r {
            Some(d) => decoded_png(file@) == Some((d.width, d.height, d.pixels, d.bytes@)),
            None => decoded_png(file@) == None::<(u32, u32, Pixels, Seq<u8>)>,
        },
{
    let mut reader = png::Decoder::new(std::io::Cursor::new(file)).read_info().ok()?;
    let (width, height) = (reader.info().width, reader.info().height);
    let pixels = match reader.info().color_type {
        png::ColorType::Rgba => Pixels::Rgba,
        png::ColorType::Rgb => Pixels::Rgb,
        png::ColorType::GrayscaleAlpha => Pixels::GrayAlpha,
        png::ColorType::Grayscale => Pixels::Gray,
        png::ColorType::Indexed => Pixels::Indexed,
    };
    let mut bytes = vec![0u8; reader.output_buffer_size()?];
    reader.next_frame(&mut bytes).ok()?;
    Some(Decoded { width, height, pixels, bytes })
}

/// The bytes of one pixel.
pub open spec fn pixel_len(p: Pixels) -> int {
    match p {
        Pixels::Rgba => 4,
        Pixels::Rgb => 3,
        Pixels::GrayAlpha => 2,
        Pixels::Gray => 1,
        Pixels::Indexed => 1,
    }
}

/// Byte `k` of pixel `i` as red, green, blue and opacity.
pub open spec fn rgba_byte(p: Pixels, b: Seq<u8>, i: int, k: int) -> u8 {
    match p {
        Pixels::Rgb => if k == 3 {
            255
        } else {
            b[3 * i + k]
        },
        Pixels::GrayAlpha => if k == 3 {
            b[2 * i + 1]
        } else {
            b[2 * i]
        },
        _ => if k == 3 {
            255
        } else {
            b[i]
        },
    }
}

/// The whole pixels of a picture as red, green, blue and opacity; nothing for
/// pixels that are numbers of a palette.
pub open spec fn as_rgba(p: Pixels, b: Seq<u8>) -> Option<Seq<u8>> {
    match p {
        Pixels::Rgba => Some(b),
        Pixels::Indexed => None,
        _ => Some(
            Seq::new(
                ((b.len() as int / pixel_len(p)) * 4) as nat,
                |j: int| rgba_byte(p, b, j / 4, j % 4),
            ),
        ),
    }
}

fn spread(p: Pixels, bytes: &Vec<u8>, step: usize) -> (r: Vec<u8>)
    requires
        p == Pixels::Rgb || p == Pixels::GrayAlpha || p == Pixels::Gray,
        step == pixel_len(p),
    ensures
        as_rgba(p, bytes@) == Some(r@),
{
    let mut out: Vec<u8> = Vec::new();
    let n: usize = bytes.len() / step;
    let mut i: usize = 0;
    while i < n
        invariant
            i <= n,
            n == bytes.len() as int / step as int,
            p == Pixels::Rgb || p == Pixels::GrayAlpha || p == Pixels::Gray,
            step == pixel_len(p),
            out@.len() == i * 4,
            forall|j: int|
                0 <= j < out@.len() ==> #[trigger] out@[j] == rgba_byte(p, bytes@, j / 4, j % 4),
        decreases n - i,
    {
        let at: usize = i * step;
        let ghost before = out@;
        match p {
            Pixels::Rgb => {
                out.push(bytes[at]);
                out.push(bytes[at + 1]);
                out.push(bytes[at + 2]);
                out.push(255);
            },
            Pixels::GrayAlpha => {
                out.push(bytes[at]);
                out.push(bytes[at]);
                out.push(bytes[at]);
                out.push(bytes[at + 1]);
            },
            _ => {
                out.push(bytes[at]);
                out.push(bytes[at]);
                out.push(bytes[at]);
                out.push(255);
            },
        }
        proof {
            assert forall|j: int| 0 <= j < out@.len() implies #[trigger] out@[j] == rgba_byte(
                p,
                bytes@,
                j / 4,
                j % 4,
            ) by {
                if j < i * 4 {
                    assert(out@[j] == before[j]);
                } else {
                    assert(j / 4 == i && j % 4 == j - i * 4);
                }
            }
        }
        i = i + 1;
    }
    let ghost want = as_rgba(p, bytes@);
    assert(want matches Some(w) && w =~= out@);
    out
}

/// The pixels of a picture as red, green, blue and opacity.
pub fn promote(p: Pixels, bytes: Vec<u8>) -> (r: Option<Vec<u8>>)
    ensures
        match r {
            Some(out) => as_rgba(p, bytes@) == Some(out@),
            None => as_rgba(p, bytes@) == None::<Seq<u8>>,
        },
{
    match p {
        Pixels::Rgba => Some(bytes),
        Pixels::Rgb => Some(spread(p, &bytes, 3)),
        Pixels::GrayAlpha => Some(spread(p, &bytes, 2)),
        Pixels::Gray => Some(spread(p, &bytes, 1)),
        Pixels::Indexed => None,
    }
}

/// The banner in a PNG file: its pixels as red, green, blue and opacity, its width
/// and its height.
pub fn decode_banner(file: &[u8]) -> (r: Option<(Vec<u8>, u32, u32)>)
    requires
        fits_memory(file@),
    ensures
        match decoded_png(file@) {
            Some((w, h, p, b)) => match as_rgba(p, b) {
                Some(px) => r matches Some(x) && x.0@ == px && x.1 == w && x.2 == h,
                None => r is None,
            },
            None => r is None,
        },
{
    match decode_png(file) {
        Some(d) => match promote(d.pixels, d.bytes) {
            Some(px) => Some((px, d.width, d.height)),
            None => None,
        },
        None => None,
    }
}

/// The banner is a texture.
pub fn set_banner_texture(s: &mut State, tex: u32, w: u32, h: u32)
    ensures
        *final(s) == (State { banner: Banner { tex, w, h }, ..*old(s) }),
{
    s.banner = Banner { tex, w, h };
}

} // verus!
