//! Texture preparation: PNG bytes to RGBA pixels laid out bottom row first,
//! as OpenGL expects them.

use vstd::prelude::*;

verus! {

/// The ways setting up or drawing the scene can fail; each one is fatal.
#[derive(Clone, Copy, Debug, PartialEq, Eq, Structural)]
pub enum ErrorKind {
    /// A shader or texture file is missing or cannot be read.
    ResourceLoad,
    /// The window, context, a buffer or a shader could not be created.
    GraphicsContext,
    /// A frame could not be drawn or shown.
    Presentation,
}

/// An RGBA image: `width * height` pixels of four bytes each.
#[derive(Clone, Debug)]
pub struct TextureImage {
    pub width: u32,
    pub height: u32,
    pub pixels: Vec<u8>,
}

/// What decoding `bytes` as a PNG file and converting the picture to 8-bit
/// RGBA yields: its width, height and pixel bytes (row by row, top row
/// first), or `None` where the bytes hold no PNG image that can be decoded.
pub uninterp spec fn png_rgba8(bytes: Seq<u8>) -> Option<(u32, u32, Seq<u8>)>;

/// Relies on `image::load_from_memory_with_format` with `ImageFormat::Png`
/// to decode, and on `DynamicImage::to_rgba8`, whose buffer is allocated by
/// `ImageBuffer::new` at four bytes per pixel.
#[verifier::external_body]
fn decode_png(bytes: &Vec<u8>) -> (r: Option<(u32, u32, Vec<u8>)>)
    ensures
        match r {
            Some((w, h, p)) => png_rgba8(bytes@) == Some((w, h, p@)) && p@.len() == 4 * w * h,
            None => png_rgba8(bytes@) is None,
        },
{
    match image::load_from_memory_with_format(bytes, image::ImageFormat::Png) {
        Ok(img) => {
            let rgba = img.to_rgba8();
            let (w, h) = rgba.dimensions();
            Some((w, h, rgba.into_raw()))
        },
        Err(_) => None,
    }
}

/// Row `i` of an image whose rows are `row_len` bytes long.
pub open spec fn row(p: Seq<u8>, row_len: int, i: int) -> Seq<u8> {
    p.subrange(i * row_len, (i + 1) * row_len)
}

/// The last `k` rows of a `height`-row image, the bottom row first.
pub open spec fn bottom_rows(p: Seq<u8>, row_len: int, height: int, k: nat) -> Seq<u8>
    decreases k,
{
    if k == 0 {
        Seq::empty()
    } else {
        bottom_rows(p, row_len, height, (k - 1) as nat) + row(p, row_len, height - k)
    }
}

/// An RGBA image of the given size with its rows in the opposite order.
pub open spec fn flipped(p: Seq<u8>, width: u32, height: u32) -> Seq<u8> {
    bottom_rows(p, 4 * width, height as int, height as nat)
}

/// Reverses the order of the rows of a `width` by `height` RGBA image.
pub fn flip_rows(pixels: &Vec<u8>, width: u32, height: u32) -> (r: Vec<u8>)
    requires
        pixels@.len() == 4 * width * height,
    ensures
        r@ == flipped(pixels@, width, height),
{
    let mut out: Vec<u8> = Vec::new();
    if height == 0 {
        return out;
    }
    let ghost p = pixels@;
    let ghost rl: int = 4 * width;
    let ghost h: int = height as int;
    assert(rl <= rl * h) by (nonlinear_arith)
        requires
            rl >= 0,
            h >= 1,
    ;
    let total: usize = pixels.len();
    assert(4 * (width as usize) <= total);
    let row_len: usize = 4 * (width as usize);
    let rows: usize = height as usize;
    let mut k: usize = 0;
    while k < rows
        invariant
            0 <= k <= rows,
            rows == h,
            h >= 1,
            row_len == rl,
            rl >= 0,
            p == pixels@,
            p.len() == rl * h,
            p.len() == total,
            out@ == bottom_rows(p, rl, h, k as nat),
        decreases rows - k,
    {
        let src: usize = rows - 1 - k;
        assert(src * rl + rl <= rl * h) by (nonlinear_arith)
            requires
                0 <= src,
                src + 1 <= h,
                rl >= 0,
        ;
        assert(src * rl >= 0) by (nonlinear_arith)
            requires
                0 <= src,
                rl >= 0,
        ;
        let start: usize = src * row_len;
        let mut j: usize = 0;
        while j < row_len
            invariant
                0 <= j <= row_len,
                row_len == rl,
                start + rl <= p.len(),
                p.len() <= usize::MAX,
                p == pixels@,
                out@ == bottom_rows(p, rl, h, k as nat) + p.subrange(start as int, start + j),
            decreases row_len - j,
        {
            out.push(pixels[start + j]);
            j = j + 1;
            assert(p.subrange(start as int, start + j) =~= p.subrange(start as int, start + j - 1)
                + seq![p[start + j - 1]]);
        }
        assert((src + 1) * rl == src * rl + rl) by (nonlinear_arith);
        assert(row(p, rl, h - (k + 1)) == p.subrange(start as int, start + rl));
        k = k + 1;
    }
    out
}

/// Decodes a PNG file into the pixels of a texture, rows reversed so that
/// the picture's bottom row comes first. Fails with
/// [`ErrorKind::ResourceLoad`] exactly when the bytes do not decode.
pub fn texture_image(bytes: &Vec<u8>) -> (r: Result<TextureImage, ErrorKind>)
    ensures
        r is Ok <==> png_rgba8(bytes@) is Some,
        r matches Ok(t) ==> png_rgba8(bytes@) matches Some((w, h, p)) && t.width == w
            && t.height == h && t.pixels@ == flipped(p, w, h),
        r matches Err(e) ==> e == ErrorKind::ResourceLoad,
{
    match decode_png(bytes) {
        Some((w, h, p)) => {
            let pixels = flip_rows(&p, w, h);
            Ok(TextureImage { width: w, height: h, pixels })
        },
        None => Err(ErrorKind::ResourceLoad),
    }
}

} // verus!
