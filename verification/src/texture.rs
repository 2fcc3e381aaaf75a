//! Decoding the hero picture into the pixels of a texture.
use vstd::prelude::*;

verus! {

/// A colour with straight (not premultiplied) alpha, one byte per channel.
#[derive(Clone, Copy, Debug, PartialEq, Eq, Structural)]
pub struct Rgba {
    pub r: u8,
    pub g: u8,
    pub b: u8,
    pub a: u8,
}

/// A picture ready to become a texture: its size and its pixels, row by row.
#[derive(Clone, Debug)]
pub struct TextureImage {
    pub width: usize,
    pub height: usize,
    pub pixels: Vec<Rgba>,
}

/// What the image decoder hands back: the size and the RGBA bytes, row by row.
struct DecodedRgba {
    width: u32,
    height: u32,
    data: Vec<u8>,
}

/// What the image decoder makes of the bytes, read as the format their first bytes
/// announce (`image::guess_format`) and decoded by the built-in decoder for it, then
/// converted with `to_rgba8`: the width, the height and the raw RGBA buffer, or nothing
/// when the bytes are not a picture the decoder reads.
pub uninterp spec fn decoded_rgba8(bytes: Seq<u8>) -> Option<(u32, u32, Seq<u8>)>;

/// The `k`-th pixel of an RGBA buffer.
pub open spec fn pixel_at(data: Seq<u8>, k: int) -> Rgba {
    Rgba { r: data[4 * k], g: data[4 * k + 1], b: data[4 * k + 2], a: data[4 * k + 3] }
}

/// The first `count` pixels of an RGBA buffer.
pub open spec fn pixels_of(data: Seq<u8>, count: nat) -> Seq<Rgba> {
    Seq::new(count, |k: int| pixel_at(data, k))
}

/// Channel `c` (0 red, 1 green, 2 blue, 3 alpha) of a pixel.
pub open spec fn channel(p: Rgba, c: int) -> u8 {
    if c == 0 {
        p.r
    } else if c == 1 {
        p.g
    } else if c == 2 {
        p.b
    } else {
        p.a
    }
}

/// The bytes of a run of pixels, four per pixel.
pub open spec fn rgba_bytes(pixels: Seq<Rgba>) -> Seq<u8> {
    Seq::new(4 * pixels.len(), |i: int| channel(pixels[i / 4], i % 4))
}

/// Calls `image::guess_format` on the bytes and `image::load_from_memory_with_format`
/// with the format it names, then `to_rgba8`, `dimensions` and `into_raw` on what was
/// decoded. This is the path `image::load_from_memory` takes, with the built-in format
/// detection and decoders only: no registered hook is consulted, and the default limits
/// are fixed, so the outcome depends on the bytes alone. The contract claims that the
/// result is `decoded_rgba8` of the bytes, and, as the crate's `ImageBuffer` keeps it,
/// that the buffer holds at least four bytes for each of the `width * height` pixels.
/// What a decoder makes of given bytes is left to the crate and unsaid here.
#[verifier::external_body]
fn decode_rgba8(bytes: &[u8]) -> (r: Option<DecodedRgba>)
    ensures
        match r {
            None => decoded_rgba8(bytes@) is None,
            Some(d) => decoded_rgba8(bytes@) == Some((d.width, d.height, d.data@)) && 4 * d.width
                * d.height <= d.data@.len(),
        },
{
    let format = match image::guess_format(bytes) {
        Ok(format) => format,
        Err(_) => return None,
    };
    match image::load_from_memory_with_format(bytes, format) {
        Ok(img) => {
            let rgba = img.to_rgba8();
            let (width, height) = rgba.dimensions();
            Some(DecodedRgba { width, height, data: rgba.into_raw() })
        },
        Err(_) => None,
    }
}

/// Groups an RGBA buffer of a `width` by `height` picture into pixels.
pub fn texture_from_rgba(width: u32, height: u32, data: &Vec<u8>) -> (t: TextureImage)
    requires
        4 * width * height <= data@.len(),
    ensures
        t.width == width,
        t.height == height,
        t.pixels@ == pixels_of(data@, (width * height) as nat),
{
    let len = data.len();
    let w = width as usize;
    let h = height as usize;
    assert(w * h <= 4 * (w * h) && 4 * (w * h) == 4 * width * height) by (nonlinear_arith)
        requires
            w == width,
            h == height,
    ;
    let count = w * h;
    let mut pixels: Vec<Rgba> = Vec::new();
    let mut k: usize = 0;
    while k < count
        invariant
            count == width * height,
            4 * count <= usize::MAX,
            4 * count <= data@.len(),
            k <= count,
            pixels@ == pixels_of(data@, k as nat),
        decreases count - k,
    {
        let base = 4 * k;
        let p = Rgba { r: data[base], g: data[base + 1], b: data[base + 2], a: data[base + 3] };
        pixels.push(p);
        k = k + 1;
        assert(pixels@ =~= pixels_of(data@, k as nat));
    }
    TextureImage { width: w, height: h, pixels }
}

/// Decodes a picture into a texture image, or gives nothing when the bytes are not a
/// picture the decoder reads.
pub fn decode_texture(bytes: &[u8]) -> (r: Option<TextureImage>)
    ensures
        match decoded_rgba8(bytes@) {
            None => r is None,
            Some((w, h, data)) => r matches Some(t) && t.width == w && t.height == h
                && t.pixels@ == pixels_of(data, (w * h) as nat),
        },
{
    match decode_rgba8(bytes) {
        None => None,
        Some(d) => Some(texture_from_rgba(d.width, d.height, &d.data)),
    }
}

/// Grouping bytes into pixels loses nothing: the pixels, written back out four bytes
/// each, are the bytes they were read from.
pub proof fn law_pixels_round_trip(data: Seq<u8>, count: nat)
    requires
        4 * count <= data.len(),
    ensures
        rgba_bytes(pixels_of(data, count)) == data.subrange(0, (4 * count) as int),
{
    let px = pixels_of(data, count);
    assert forall|i: int| 0 <= i < 4 * count implies #[trigger] rgba_bytes(px)[i] == data[i] by {
        let k = i / 4;
        let c = i % 4;
        assert(0 <= k < count);
        assert(i == 4 * k + c);
    }
    assert(rgba_bytes(px) =~= data.subrange(0, (4 * count) as int));
}

} // verus!
