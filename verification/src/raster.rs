//! Raster pipeline: preparing a decoded image for the printer and packing
//! its pixels into fixed-width raster lines.
//!
//! The pipeline works on plain luminance buffers. Resampling, transparency
//! flattening and grayscale conversion are done by the `image` crate behind
//! trusted wrappers; the aspect-ratio bound, the monochrome threshold and the
//! bit-packing are verified here.

use vstd::prelude::*;

use crate::command::RasterLine;
use crate::error::BrotherQlError;
use crate::Settings;

verus! {

/// A single-channel luminance image: `width * height` bytes in row-major
/// order, one byte per pixel, 0 black and 255 white.
#[derive(Debug)]
pub struct GrayImage {
    /// Width in pixels.
    pub width: u32,
    /// Height in pixels.
    pub height: u32,
    /// Row-major luminance bytes, exactly one per pixel.
    pub pixels: Vec<u8>,
}

impl GrayImage {
    /// Whether the buffer holds exactly one byte per pixel.
    pub open spec fn wf(&self) -> bool {
        self.pixels@.len() == self.width * self.height
    }

    /// Wrap a luminance buffer as an image; a buffer whose length is not
    /// `width * height` is refused.
    pub fn new(width: u32, height: u32, pixels: Vec<u8>) -> (r: Option<GrayImage>)
        ensures
            r is Some <==> pixels@.len() == width * height,
            r is Some ==> r->0 == (GrayImage { width, height, pixels }) && r->0.wf(),
    {
        proof {
            assert((width as int) * (height as int) <= u64::MAX) by (nonlinear_arith)
                requires
                    width <= u32::MAX,
                    height <= u32::MAX,
            ;
        }
        let expected: u64 = (width as u64) * (height as u64);
        if (pixels.len() as u64) == expected {
            Some(GrayImage { width, height, pixels })
        } else {
            None
        }
    }
}

/// The flat binary cut of one luminance value: black (0) when at most 128,
/// white (255) otherwise.
pub open spec fn threshold_pixel(p: u8) -> u8 {
    if p > 128 {
        255u8
    } else {
        0u8
    }
}

/// Convert a grayscale image to pure black and white by the flat threshold:
/// every pixel becomes 0 (at most 128) or 255 (above 128).
pub fn apply_threshold(img: &GrayImage) -> (r: GrayImage)
    ensures
        r.width == img.width,
        r.height == img.height,
        r.pixels@ == img.pixels@.map_values(|p: u8| threshold_pixel(p)),
        img.wf() ==> r.wf(),
{
    let mut out: Vec<u8> = Vec::with_capacity(img.pixels.len());
    let mut i: usize = 0;
    while i < img.pixels.len()
        invariant
            i <= img.pixels@.len(),
            out@.len() == i,
            forall|j: int| 0 <= j < i ==> out@[j] == threshold_pixel(#[trigger] img.pixels@[j]),
        decreases img.pixels@.len() - i,
    {
        let p = img.pixels[i];
        if p > 128 {
            out.push(255);
        } else {
            out.push(0);
        }
        i += 1;
    }
    assert(out@ =~= img.pixels@.map_values(|p: u8| threshold_pixel(p)));
    GrayImage { width: img.width, height: img.height, pixels: out }
}

/// Whether dot `d` of a packed 90-byte raster line is set. Dot 0 is the
/// leftmost printable dot; dot `d` lives in byte `89 - d / 8`, bit `d % 8`,
/// so dots are packed from the high end of the buffer, least significant
/// bit first within each byte.
pub open spec fn dot_of(line: Seq<u8>, d: int) -> bool
    recommends
        line.len() == 90,
        0 <= d < 720,
{
    (line[89 - d / 8] >> ((d % 8) as u8)) & 1u8 == 1u8
}

/// Whether a packed line renders exactly the pixel row `row` shifted `pad`
/// dots toward the high end of the buffer: a dot is set if and only if it
/// falls inside the shifted row and the pixel there is black (0).
pub open spec fn line_matches_row(line: Seq<u8>, row: Seq<u8>, pad: int) -> bool {
    forall|d: int|
        0 <= d < 720 ==> (#[trigger] dot_of(line, d) <==> (pad <= d < pad + row.len() && row[d
            - pad] == 0))
}

/// The pixel row `y` of `img`.
pub open spec fn spec_row(img: &GrayImage, y: int) -> Seq<u8> {
    img.pixels@.subrange(y * img.width, (y + 1) * img.width)
}

proof fn lemma_or_sets_bit(v: u8, k: u8)
    by (bit_vector)
    requires
        k < 8,
    ensures
        ((v | (1u8 << k)) >> k) & 1u8 == 1u8,
{
}

proof fn lemma_or_keeps_other_bits(v: u8, k: u8, j: u8)
    by (bit_vector)
    requires
        k < 8,
        j < 8,
        j != k,
    ensures
        ((v | (1u8 << k)) >> j) & 1u8 == (v >> j) & 1u8,
{
}

proof fn lemma_zero_byte_bits(j: u8)
    by (bit_vector)
    requires
        j < 8,
    ensures
        (0u8 >> j) & 1u8 == 0u8,
{
}

/// Pack each pixel row of a black-and-white image into one 90-byte raster
/// line. `image_width` is the printable width the image was prepared for;
/// an image narrower than the full 720-dot head is shifted by a left
/// padding of `720 - image_width` dots. A black pixel (0) sets its dot;
/// any other value leaves the dot clear.
pub fn img_to_lines(img: &GrayImage, image_width: u32) -> (r: Vec<RasterLine>)
    requires
        img.wf(),
        image_width <= 720,
        img.width <= image_width,
    ensures
        r@.len() == img.height,
        forall|y: int| 0 <= y < img.height ==> (#[trigger] r@[y]).wf(),
        forall|y: int|
            0 <= y < img.height ==> line_matches_row(
                #[trigger] r@[y]@,
                spec_row(img, y),
                720 - image_width,
            ),
{
    let padding: u32 = 720 - image_width;
    let width = img.width;
    let height = img.height;
    let total: usize = img.pixels.len();
    let mut lines: Vec<RasterLine> = Vec::new();
    let mut y: u32 = 0;
    while y < height
        invariant
            img.wf(),
            width == img.width,
            height == img.height,
            image_width <= 720,
            width <= image_width,
            padding == 720 - image_width,
            total == img.pixels@.len(),
            y <= height,
            lines@.len() == y,
            forall|yy: int| 0 <= yy < y ==> (#[trigger] lines@[yy]).wf(),
            forall|yy: int|
                0 <= yy < y ==> line_matches_row(
                    #[trigger] lines@[yy]@,
                    spec_row(img, yy),
                    padding as int,
                ),
        decreases height - y,
    {
        let mut line: Vec<u8> = vec![0u8; 90];
        proof {
            assert forall|d: int| 0 <= d < 720 implies !dot_of(line@, d) by {
                lemma_zero_byte_bits((d % 8) as u8);
            }
        }
        let mut x: u32 = 0;
        while x < width
            invariant
                img.wf(),
                width == img.width,
                height == img.height,
                y < height,
                image_width <= 720,
                width <= image_width,
                padding == 720 - image_width,
                total == img.pixels@.len(),
                x <= width,
                line@.len() == 90,
                forall|d: int|
                    0 <= d < 720 ==> (#[trigger] dot_of(line@, d) <==> (padding <= d < padding + x
                        && img.pixels@[y * width + (d - padding)] == 0)),
            decreases width - x,
        {
            proof {
                assert((y as int) * (width as int) + (x as int) < (width as int) * (height
                    as int)) by (nonlinear_arith)
                    requires
                        0 <= y < height,
                        0 <= x < width,
                ;
            }
            let idx: usize = (y as usize) * (width as usize) + (x as usize);
            let p = img.pixels[idx];
            let xp: u32 = x + padding;
            let byte: usize = (xp / 8) as usize;
            let bit: u8 = (xp % 8) as u8;
            if p == 0 {
                let pos: usize = 89 - byte;
                let old_b: u8 = line[pos];
                let new_b: u8 = old_b | (1u8 << bit);
                let ghost old_line = line@;
                line.set(pos, new_b);
                proof {
                    assert(line@ == old_line.update(pos as int, new_b));
                    assert forall|d: int| 0 <= d < 720 implies (dot_of(line@, d) <==> (padding <= d
                        < padding + (x + 1) && img.pixels@[y * width + (d - padding)] == 0)) by {
                        vstd::arithmetic::div_mod::lemma_fundamental_div_mod(d, 8);
                        vstd::arithmetic::div_mod::lemma_fundamental_div_mod(xp as int, 8);
                        assert(0 <= d / 8 <= 89);
                        assert(0 <= d % 8 < 8);
                        if d == xp {
                            assert(line@[89 - d / 8] == new_b);
                            assert((d % 8) as u8 == bit);
                            lemma_or_sets_bit(old_b, bit);
                            assert(dot_of(line@, d));
                            assert(img.pixels@[y * width + (d - padding)] == p);
                        } else if 89 - d / 8 == pos {
                            assert(d / 8 == xp / 8);
                            assert(d % 8 != xp % 8);
                            lemma_or_keeps_other_bits(old_b, bit, (d % 8) as u8);
                            assert(dot_of(line@, d) <==> dot_of(old_line, d));
                        } else {
                            assert(line@[89 - d / 8] == old_line[89 - d / 8]);
                            assert(dot_of(line@, d) <==> dot_of(old_line, d));
                        }
                    }
                }
            } else {
                proof {
                    assert forall|d: int| 0 <= d < 720 implies (dot_of(line@, d) <==> (padding <= d
                        < padding + (x + 1) && img.pixels@[y * width + (d - padding)] == 0)) by {
                        if d == xp {
                            assert(img.pixels@[y * width + (d - padding)] == p);
                        }
                    }
                }
            }
            x += 1;
        }
        proof {
            assert(0 <= (y as int) * (width as int)) by (nonlinear_arith)
                requires
                    0 <= y,
                    0 <= width,
            ;
            assert((y as int + 1) * (width as int) <= (width as int) * (height as int))
                by (nonlinear_arith)
                requires
                    0 <= y < height,
                    0 <= width,
            ;
            assert((y as int + 1) * (width as int) == (y as int) * (width as int) + width)
                by (nonlinear_arith);
            let row = spec_row(img, y as int);
            assert(row.len() == width);
            assert forall|d: int| 0 <= d < 720 implies (dot_of(line@, d) <==> (padding <= d
                < padding + row.len() && row[d - padding] == 0)) by {
                if padding <= d < padding + row.len() {
                    assert(row[d - padding] == img.pixels@[y * width + (d - padding)]);
                }
            }
            assert(line_matches_row(line@, row, padding as int));
        }
        let packed = RasterLine::from_packed(line);
        lines.push(packed);
        y += 1;
    }
    lines
}

/// The packing shifts an image narrower than the full head by exactly the
/// padding: for a line that matches a pixel row under padding `pad`, the
/// dot at `x + pad` is set exactly when pixel `x` of the row is black, and
/// every dot outside the shifted row — below the padding or past its end —
/// is clear.
pub proof fn lemma_padding_shift(line: Seq<u8>, row: Seq<u8>, pad: int)
    requires
        line_matches_row(line, row, pad),
        0 <= pad,
        pad + row.len() <= 720,
    ensures
        forall|x: int| 0 <= x < row.len() ==> (#[trigger] dot_of(line, x + pad) <==> row[x] == 0),
        forall|d: int| 0 <= d < pad ==> !(#[trigger] dot_of(line, d)),
        forall|d: int| pad + row.len() <= d < 720 ==> !(#[trigger] dot_of(line, d)),
{
    assert forall|x: int| 0 <= x < row.len() implies (#[trigger] dot_of(line, x + pad) <==> row[x]
        == 0) by {
        assert(dot_of(line, x + pad) <==> (pad <= x + pad < pad + row.len() && row[x + pad - pad]
            == 0));
    }
}

/// The RGBA bytes of an image composited over an opaque white background.
pub uninterp spec fn flatten_of(rgba: Seq<u8>, width: int, height: int) -> Seq<u8>;

/// The luminance byte of each pixel of an RGBA image.
pub uninterp spec fn gray_of(rgba: Seq<u8>, width: int, height: int) -> Seq<u8>;

/// The luminance bytes of an image resampled to the given dimensions with
/// the Lanczos filter.
pub uninterp spec fn resample_of(
    gray: Seq<u8>,
    width: int,
    height: int,
    new_width: int,
    new_height: int,
) -> Seq<u8>;

/// Relies on image::imageops::overlay: blending the RGBA buffer over an
/// opaque white background of the same dimensions; the result keeps the
/// row-major RGBA layout, so its length is unchanged.
#[verifier::external_body]
fn flatten_onto_white(rgba: Vec<u8>, width: u32, height: u32) -> (r: Vec<u8>)
    requires
        rgba@.len() == 4 * width * height,
    ensures
        r@.len() == rgba@.len(),
        r@ == flatten_of(rgba@, width as int, height as int),
{
    let top = image::RgbaImage::from_raw(width, height, rgba).unwrap();
    let mut bottom = image::RgbaImage::from_pixel(
        width,
        height,
        image::Rgba([255u8, 255u8, 255u8, 255u8]),
    );
    image::imageops::overlay(&mut bottom, &top, 0, 0);
    bottom.into_raw()
}

/// Relies on image::imageops::grayscale: one luminance byte per RGBA pixel,
/// in the same row-major order, discarding the alpha channel.
#[verifier::external_body]
fn to_grayscale(rgba: Vec<u8>, width: u32, height: u32) -> (r: Vec<u8>)
    requires
        rgba@.len() == 4 * width * height,
    ensures
        r@.len() == width * height,
        r@ == gray_of(rgba@, width as int, height as int),
{
    let img = image::RgbaImage::from_raw(width, height, rgba).unwrap();
    image::imageops::grayscale(&img).into_raw()
}

/// Relies on image::imageops::resize with the Lanczos3 filter: a luminance
/// buffer of exactly `new_width * new_height` bytes. The two size bounds
/// keep the output and the intermediate buffer of the two-pass filter
/// within addressable memory.
#[verifier::external_body]
fn resize_lanczos(gray: Vec<u8>, width: u32, height: u32, new_width: u32, new_height: u32) -> (r:
    Vec<u8>)
    requires
        gray@.len() == width * height,
        width > 0,
        height > 0,
        new_width > 0,
        new_height > 0,
        new_width * new_height <= usize::MAX,
        width * new_height <= usize::MAX,
    ensures
        r@.len() == new_width * new_height,
        r@ == resample_of(
            gray@,
            width as int,
            height as int,
            new_width as int,
            new_height as int,
        ),
{
    let img: image::ImageBuffer<image::Luma<u8>, Vec<u8>> = image::ImageBuffer::from_raw(
        width,
        height,
        gray,
    ).unwrap();
    image::imageops::resize(&img, new_width, new_height, image::imageops::FilterType::Lanczos3)
        .into_raw()
}

/// The printable width the pipeline renders for: the printer-reported pixel
/// width, or the full 720-dot head when the media geometry is unknown.
pub open spec fn spec_target_width(printer_width: Option<u16>) -> u32 {
    match printer_width {
        Some(w) => w as u32,
        None => 720u32,
    }
}

/// The output height: the source height scaled by the same factor as the
/// width, rounded to the nearest row, doubled in 600-dpi mode.
pub open spec fn spec_target_height(width: u32, height: u32, new_width: u32, dpi_600: bool) -> int {
    ((2 * new_width * height + width) / (2 * width)) * (if dpi_600 {
        2int
    } else {
        1int
    })
}

/// Whether the raster pipeline accepts an image of the given dimensions: a
/// positive width, a height/width ratio of at most 3.5 (the guard against
/// runaway label lengths), a positive target width and height, and target
/// buffers that fit in addressable memory.
pub open spec fn spec_image_accepted(
    width: u32,
    height: u32,
    printer_width: Option<u16>,
    dpi_600: bool,
) -> bool {
    let nw = spec_target_width(printer_width);
    let nh = spec_target_height(width, height, nw, dpi_600);
    &&& width > 0
    &&& nw > 0
    &&& 2 * height <= 7 * width
    &&& nh > 0
    &&& nw * nh <= usize::MAX
    &&& width * nh <= usize::MAX
}

/// Normalize a decoded RGBA image for the printer: reject an image whose
/// height is more than 3.5 times its width, flatten transparency over a
/// white background, convert to luminance, and resample to the printable
/// width, scaling the height by the same factor (doubled in 600-dpi mode).
pub fn prepare_image(
    rgba: Vec<u8>,
    width: u32,
    height: u32,
    printer_width: Option<u16>,
    settings: &Settings,
) -> (r: Result<GrayImage, BrotherQlError>)
    requires
        rgba@.len() == 4 * width * height,
    ensures
        r is Ok <==> spec_image_accepted(width, height, printer_width, settings.dpi_600),
        r is Err ==> r->Err_0 == BrotherQlError::InvalidImage,
        r is Ok ==> ({
            let nw = spec_target_width(printer_width);
            let nh = spec_target_height(width, height, nw, settings.dpi_600);
            &&& r->Ok_0.wf()
            &&& r->Ok_0.width == nw
            &&& r->Ok_0.height == nh
            &&& r->Ok_0.pixels@ == resample_of(
                gray_of(
                    flatten_of(rgba@, width as int, height as int),
                    width as int,
                    height as int,
                ),
                width as int,
                height as int,
                nw as int,
                nh,
            )
        }),
{
    let nw: u32 = match printer_width {
        Some(w) => w as u32,
        None => 720,
    };
    if width == 0 || nw == 0 {
        return Err(BrotherQlError::InvalidImage);
    }
    // The sanity bound against runaway label lengths: reject when
    // height / width > 3.5, that is when 2 * height > 7 * width.
    if 2 * (height as u64) > 7 * (width as u64) {
        return Err(BrotherQlError::InvalidImage);
    }
    if height == 0 {
        proof {
            assert(2 * (nw as int) * (height as int) == 0) by (nonlinear_arith)
                requires
                    height == 0,
            ;
            vstd::arithmetic::div_mod::lemma_basic_div(width as int, 2 * (width as int));
        }
        return Err(BrotherQlError::InvalidImage);
    }
    // Scale the height by new_width / width, rounding to the nearest row.
    proof {
        assert(2 * (nw as int) * (height as int) + width <= u64::MAX) by (nonlinear_arith)
            requires
                0 <= nw <= 0xffff,
                0 <= height <= 0xffff_ffff,
                0 <= width <= 0xffff_ffff,
        ;
    }
    let num: u64 = 2 * (nw as u64) * (height as u64) + (width as u64);
    let den: u64 = 2 * (width as u64);
    let q: u64 = num / den;
    proof {
        vstd::arithmetic::div_mod::lemma_fundamental_div_mod(num as int, den as int);
        assert(2 * (nw as int) * (height as int) <= 7 * (nw as int) * (width as int))
            by (nonlinear_arith)
            requires
                2 * (height as int) <= 7 * (width as int),
                0 <= nw,
        ;
        assert(num <= (7 * (nw as int) + 1) * (width as int)) by (nonlinear_arith)
            requires
                num == 2 * (nw as int) * (height as int) + width,
                2 * (nw as int) * (height as int) <= 7 * (nw as int) * (width as int),
        ;
        assert(2 * (q as int) <= 7 * (nw as int) + 1) by (nonlinear_arith)
            requires
                (den as int) * (q as int) <= num,
                num <= (7 * (nw as int) + 1) * (width as int),
                den == 2 * (width as int),
                width > 0,
        ;
    }
    let nh64: u64 = if settings.dpi_600 {
        2 * q
    } else {
        q
    };
    if nh64 == 0 {
        return Err(BrotherQlError::InvalidImage);
    }
    let nh: u32 = nh64 as u32;
    proof {
        assert((nw as int) * (nh64 as int) <= u64::MAX && (width as int) * (nh64 as int)
            <= u64::MAX) by (nonlinear_arith)
            requires
                0 <= nw <= 0xffff,
                0 <= width <= 0xffff_ffff,
                0 <= nh64 <= 0x80000,
        ;
    }
    if (nw as u64) * nh64 > (usize::MAX as u64) || (width as u64) * nh64 > (usize::MAX as u64) {
        return Err(BrotherQlError::InvalidImage);
    }
    let flat = flatten_onto_white(rgba, width, height);
    let gray = to_grayscale(flat, width, height);
    let pixels = resize_lanczos(gray, width, height, nw, nh);
    Ok(GrayImage { width: nw, height: nh, pixels })
}

/// The threshold is idempotent: thresholding a buffer twice yields the same
/// bytes as thresholding it once.
pub proof fn lemma_threshold_idempotent(pixels: Seq<u8>)
    ensures
        pixels.map_values(|p: u8| threshold_pixel(p)).map_values(|p: u8| threshold_pixel(p))
            == pixels.map_values(|p: u8| threshold_pixel(p)),
{
    let once = pixels.map_values(|p: u8| threshold_pixel(p));
    assert(once.map_values(|p: u8| threshold_pixel(p)) =~= once);
}

} // verus!
