//! Decoding, resizing and encoding of images, behind trusted wrappers around
//! the `image` and `webp` crates. The pixel data itself is opaque to the
//! verified logic; what the logic reads and controls — the pixel dimensions —
//! travels beside it as plain values.

use vstd::prelude::*;

verus! {

#[verifier::external_type_specification]
#[verifier::external_body]
pub struct ExDynamicImage(image::DynamicImage);

/// A decoded image: its pixel dimensions as plain values, the decoded
/// pixel data behind an opaque handle, and whether the pixels are of one of
/// the four 8-bit color types (`L8`, `La8`, `Rgb8`, `Rgba8`) — the class
/// that every encoder of this library accepts.
pub struct Image {
    width: u32,
    height: u32,
    #[allow(dead_code)]
    eight_bit: bool,
    handle: image::DynamicImage,
}

impl Image {
    /// The pixel width of the decoded image.
    pub closed spec fn width(self) -> u32 {
        self.width
    }

    /// The pixel height of the decoded image.
    pub closed spec fn height(self) -> u32 {
        self.height
    }

    /// Whether the pixels are of an 8-bit color type. Decoding arbitrary
    /// bytes may produce deeper types (a 16-bit PNG, a float HDR image), so
    /// nothing is promised of `decode_image`'s result; the canonical WebP
    /// decoder always produces 8-bit pixels, and resizing keeps the type.
    pub closed spec fn eight_bit(self) -> bool {
        self.eight_bit
    }

    /// Reads the pixel width.
    pub fn get_width(&self) -> (r: u32)
        ensures
            r == self.width(),
    {
        self.width
    }

    /// Reads the pixel height.
    pub fn get_height(&self) -> (r: u32)
        ensures
            r == self.height(),
    {
        self.height
    }
}

/// The input formats an upload may sniff as; everything outside the accepted
/// set is `Unrecognized`.
#[derive(Clone, Copy, PartialEq, Eq, Structural, Debug)]
pub enum SniffedFormat {
    Png,
    Jpeg,
    WebP,
    Unrecognized,
}

/// The resampling kernels selectable for resizing.
#[derive(Clone, Copy, PartialEq, Eq, Structural, Debug)]
pub enum ResamplingFilter {
    Nearest,
    Triangle,
    CatmullRom,
    Gaussian,
    Lanczos3,
}

/// The largest width or height that lossless WebP encoding accepts.
pub const WEBP_MAX_DIM: u32 = 16383;

/// The largest width or height that JPEG encoding accepts.
pub const JPEG_MAX_DIM: u32 = 65535;

/// The largest product of a source dimension and a bounding dimension for
/// which aspect-preserving resizing is known to round to the half pixel:
/// well inside the 53-bit precision of the resizer's f64 arithmetic.
pub const FIT_SAFE_PRODUCT: u64 = 0x4_0000_0000_0000;

/// The largest pixel count whose decoded buffer is certain to stay within
/// the 512 MiB allocation limit that `image::load_from_memory` imposes by
/// default (at the worst case of 4 bytes per pixel). Up to it, the byte
/// blobs this library encodes are re-decodable by the `image` crate; beyond
/// it that decoder refuses the allocation.
pub const DECODE_MAX_PIXELS: u64 = 0x800_0000;

/// What `image::guess_format` sniffs from a byte blob's magic bytes,
/// collapsed onto the formats this library tells apart.
pub uninterp spec fn sniffed_format_of(b: Seq<u8>) -> SniffedFormat;

/// The pixel dimensions of the image that `image::load_from_memory` decodes
/// from a byte blob, or `None` where it decodes nothing.
pub uninterp spec fn decoded_dims(b: Seq<u8>) -> Option<(u32, u32)>;

/// The pixel dimensions of the image that `webp::Decoder::decode` decodes
/// from a byte blob, or `None` where it decodes nothing.
pub uninterp spec fn webp_decoded_dims(b: Seq<u8>) -> Option<(u32, u32)>;

/// Relies on `image::guess_format`: the format is sniffed from the bytes
/// alone (their magic-byte prefix).
#[verifier::external_body]
pub(crate) fn sniff_format(b: &Vec<u8>) -> (r: SniffedFormat)
    ensures
        r == sniffed_format_of(b@),
{
    match image::guess_format(b.as_slice()) {
        Ok(image::ImageFormat::Png) => SniffedFormat::Png,
        Ok(image::ImageFormat::Jpeg) => SniffedFormat::Jpeg,
        Ok(image::ImageFormat::WebP) => SniffedFormat::WebP,
        _ => SniffedFormat::Unrecognized,
    }
}

/// Relies on `image::load_from_memory`: decoding is a function of the bytes
/// alone, and the returned image carries the decoded pixel dimensions.
#[verifier::external_body]
pub(crate) fn decode_image(b: &Vec<u8>) -> (r: Option<Image>)
    ensures
        r is Some <==> decoded_dims(b@) is Some,
        r matches Some(img) ==> decoded_dims(b@) == Some((img.width(), img.height())),
{
    match image::load_from_memory(b.as_slice()) {
        Ok(d) => {
            let eight_bit = matches!(
                d,
                image::DynamicImage::ImageLuma8(_) | image::DynamicImage::ImageLumaA8(_)
                    | image::DynamicImage::ImageRgb8(_) | image::DynamicImage::ImageRgba8(_)
            );
            Some(Image { width: d.width(), height: d.height(), eight_bit, handle: d })
        },
        Err(_) => None,
    }
}

/// Relies on `webp::Decoder::decode`: a static WebP bitstream decodes to an
/// image with the bitstream's pixel dimensions, which the format keeps at 1
/// or more; the decoded pixels are always 8-bit (`Rgb8` or `Rgba8`).
#[verifier::external_body]
pub(crate) fn decode_canonical_webp(b: &Vec<u8>) -> (r: Option<Image>)
    ensures
        r is Some <==> webp_decoded_dims(b@) is Some,
        r matches Some(img) ==> webp_decoded_dims(b@) == Some((img.width(), img.height())),
        r matches Some(img) ==> 1 <= img.width() && 1 <= img.height(),
        r matches Some(img) ==> img.eight_bit(),
{
    match webp::Decoder::new(b.as_slice()).decode() {
        Some(w) => {
            let d = w.to_image();
            Some(Image { width: d.width(), height: d.height(), eight_bit: true, handle: d })
        },
        None => None,
    }
}

/// Relies on `webp::Encoder::encode_lossless` (libwebp): lossless encoding
/// of the image's RGBA pixels succeeds within libwebp's dimension limit;
/// the produced bytes carry the WebP magic bytes and decode — with the
/// `webp` decoder always, with the `image` decoder within its allocation
/// limit — to the same dimensions.
#[verifier::external_body]
pub(crate) fn encode_webp_lossless(img: &Image) -> (r: Vec<u8>)
    requires
        1 <= img.width() <= WEBP_MAX_DIM,
        1 <= img.height() <= WEBP_MAX_DIM,
    ensures
        webp_decoded_dims(r@) == Some((img.width(), img.height())),
        decoded_dims(r@) is Some ==> decoded_dims(r@) == Some((img.width(), img.height())),
        img.width() * img.height() <= (DECODE_MAX_PIXELS as int) ==> decoded_dims(r@) is Some,
        sniffed_format_of(r@) == SniffedFormat::WebP,
{
    let rgba = img.handle.to_rgba8();
    let mem = webp::Encoder::from_rgba(rgba.as_raw(), img.width, img.height).encode_lossless();
    mem.to_vec()
}

/// Relies on `DynamicImage::write_to` with PNG: lossless PNG encoding, which
/// succeeds for an 8-bit image whenever both dimensions are nonzero (deeper
/// color types may be rejected), and whose output carries the PNG magic
/// bytes and — within the `image` decoder's allocation limit — decodes to
/// the same dimensions.
#[verifier::external_body]
pub(crate) fn encode_png(img: &Image) -> (r: Option<Vec<u8>>)
    ensures
        img.eight_bit() && 1 <= img.width() && 1 <= img.height() ==> r is Some,
        r matches Some(b) ==> (decoded_dims(b@) is Some ==> decoded_dims(b@) == Some(
            (img.width(), img.height()),
        )) && sniffed_format_of(b@) == SniffedFormat::Png,
        img.eight_bit() && img.width() * img.height() <= (DECODE_MAX_PIXELS as int) ==> (
        r matches Some(b) ==> decoded_dims(b@) is Some),
{
    let mut out: Vec<u8> = Vec::new();
    let mut cursor = std::io::Cursor::new(&mut out);
    match img.handle.write_to(&mut cursor, image::ImageOutputFormat::Png) {
        Ok(()) => Some(out),
        Err(_) => None,
    }
}

/// Relies on `DynamicImage::write_to` with JPEG at maximal quality (255
/// clamps to 100): encoding succeeds for an 8-bit image within JPEG's
/// dimension limit (the JPEG encoder accepts only 8-bit color types), and
/// the output carries the JPEG magic bytes and — within the `image`
/// decoder's allocation limit — decodes to the same dimensions.
#[verifier::external_body]
pub(crate) fn encode_jpeg_max_quality(img: &Image) -> (r: Option<Vec<u8>>)
    requires
        1 <= img.width(),
        1 <= img.height(),
    ensures
        img.eight_bit() && img.width() <= JPEG_MAX_DIM && img.height() <= JPEG_MAX_DIM ==> r
            is Some,
        r matches Some(b) ==> (decoded_dims(b@) is Some ==> decoded_dims(b@) == Some(
            (img.width(), img.height()),
        )) && sniffed_format_of(b@) == SniffedFormat::Jpeg,
        img.width() * img.height() <= (DECODE_MAX_PIXELS as int) ==> (r matches Some(b)
            ==> decoded_dims(b@) is Some),
{
    let mut out: Vec<u8> = Vec::new();
    let mut cursor = std::io::Cursor::new(&mut out);
    match img.handle.write_to(&mut cursor, image::ImageOutputFormat::Jpeg(255)) {
        Ok(()) => Some(out),
        Err(_) => None,
    }
}

/// What aspect-preserving resizing produces for a source of `sw` by `sh`
/// within the bounding box `bw` by `bh`: dimensions of at least 1, within
/// the bounds (or exactly 1 by 1 for an empty box). Whenever a bound binds,
/// the scaled other dimension does not collapse below half a pixel, and the
/// scales stay within `FIT_SAFE_PRODUCT`, the binding dimension is hit
/// exactly and the other one keeps the source's proportions to within half
/// a pixel — and exactly, where the binding scale divides evenly.
pub open spec fn fit_dims_ok(sw: u32, sh: u32, bw: u32, bh: u32, ow: u32, oh: u32) -> bool {
    &&& 1 <= ow && 1 <= oh
    &&& (bw == 0 || bh == 0) ==> (ow == 1 && oh == 1)
    &&& (bw >= 1 && bh >= 1) ==> (ow <= bw && oh <= bh)
    &&& (bw >= 1 && bh >= 1 && bw * sh <= bh * sw && 2 * bw * sh >= sw && bh * sw < (
    FIT_SAFE_PRODUCT as int)) ==> (ow == bw && 2 * (oh * sw - bw * sh) <= sw && 2 * (bw * sh - oh
        * sw) <= sw)
    &&& (bw >= 1 && bh >= 1 && bh * sw <= bw * sh && 2 * bh * sw >= sh && bw * sh < (
    FIT_SAFE_PRODUCT as int)) ==> (oh == bh && 2 * (ow * sh - bh * sw) <= sh && 2 * (bh * sw - ow
        * sh) <= sh)
    &&& (bw >= 1 && bh >= 1 && bw * sh <= bh * sw && (bw * sh) % (sw as int) == 0 && bw * sh
        >= sw) ==> (ow == bw && oh == bw * sh / (sw as int))
    &&& (bw >= 1 && bh >= 1 && bh * sw <= bw * sh && (bh * sw) % (sh as int) == 0 && bh * sw
        >= sh) ==> (oh == bh && ow == bh * sw / (sh as int))
}

/// Relies on `DynamicImage::resize`: scales to the largest size that fits
/// within the given bounds while preserving the aspect ratio, rounding to
/// whole pixels and never below 1; the color type of the pixels is kept.
#[verifier::external_body]
pub(crate) fn resize_to_fit(img: &Image, bw: u32, bh: u32, filter: ResamplingFilter) -> (r: Image)
    requires
        1 <= img.width(),
        1 <= img.height(),
    ensures
        fit_dims_ok(img.width(), img.height(), bw, bh, r.width(), r.height()),
        r.eight_bit() == img.eight_bit(),
{
    let ft = match filter {
        ResamplingFilter::Nearest => image::imageops::FilterType::Nearest,
        ResamplingFilter::Triangle => image::imageops::FilterType::Triangle,
        ResamplingFilter::CatmullRom => image::imageops::FilterType::CatmullRom,
        ResamplingFilter::Gaussian => image::imageops::FilterType::Gaussian,
        ResamplingFilter::Lanczos3 => image::imageops::FilterType::Lanczos3,
    };
    let d = img.handle.resize(bw, bh, ft);
    Image { width: d.width(), height: d.height(), eight_bit: img.eight_bit, handle: d }
}

/// Relies on `DynamicImage::resize_exact`: resizes to exactly the given
/// dimensions, ignoring the source aspect ratio; the color type of the
/// pixels is kept.
#[verifier::external_body]
pub(crate) fn resize_exact_to(img: &Image, bw: u32, bh: u32, filter: ResamplingFilter) -> (r: Image)
    ensures
        r.width() == bw,
        r.height() == bh,
        r.eight_bit() == img.eight_bit(),
{
    let ft = match filter {
        ResamplingFilter::Nearest => image::imageops::FilterType::Nearest,
        ResamplingFilter::Triangle => image::imageops::FilterType::Triangle,
        ResamplingFilter::CatmullRom => image::imageops::FilterType::CatmullRom,
        ResamplingFilter::Gaussian => image::imageops::FilterType::Gaussian,
        ResamplingFilter::Lanczos3 => image::imageops::FilterType::Lanczos3,
    };
    let d = img.handle.resize_exact(bw, bh, ft);
    Image { width: d.width(), height: d.height(), eight_bit: img.eight_bit, handle: d }
}

} // verus!
