//! The pure transform pipeline of a fetch request: decode the canonical
//! WebP bytes, resolve the target dimensions and resampling filter, resize
//! when the target differs from the source, and encode to the requested
//! output format.

use vstd::arithmetic::div_mod::{lemma_div_multiples_vanish, lemma_fundamental_div_mod};
use vstd::arithmetic::mul::{lemma_mul_inequality, lemma_mul_is_commutative};
use vstd::prelude::*;
use vstd::string::StringExecFns;

use crate::codec::{
    decode_canonical_webp, decoded_dims, encode_jpeg_max_quality, encode_png,
    encode_webp_lossless, fit_dims_ok, resize_exact_to, resize_to_fit, sniffed_format_of,
    webp_decoded_dims, ResamplingFilter, SniffedFormat, DECODE_MAX_PIXELS, FIT_SAFE_PRODUCT,
    JPEG_MAX_DIM, WEBP_MAX_DIM,
};
use crate::errors::ImageServiceFailure;

verus! {

/// The closed set of output formats a fetch may request; anything else is
/// rejected at the boundary.
#[derive(Clone, Copy, PartialEq, Eq, Structural, Debug)]
pub enum OutputFormat {
    Webp,
    Png,
    Jpeg,
}

/// The optional transform parameters of a fetch request, as they arrive in
/// the query string.
pub struct ProcessingInstructions {
    pub stretch: Option<bool>,
    pub sampling: Option<String>,
    pub w: Option<u32>,
    pub h: Option<u32>,
}

/// The view of an optional sampling name as an optional character sequence.
pub open spec fn sampling_seq(s: Option<String>) -> Option<Seq<char>> {
    match s {
        Some(n) => Some(n@),
        None => None,
    }
}

/// Which resampling filter a sampling name selects: the four named kernels
/// map to themselves, and any other name — or no name at all — falls back to
/// nearest-neighbor.
pub open spec fn filter_spec(sampling: Option<Seq<char>>) -> ResamplingFilter {
    match sampling {
        None => ResamplingFilter::Nearest,
        Some(n) => if n == "triangle"@ {
            ResamplingFilter::Triangle
        } else if n == "catmullrom"@ {
            ResamplingFilter::CatmullRom
        } else if n == "gaussian"@ {
            ResamplingFilter::Gaussian
        } else if n == "lanczos3"@ {
            ResamplingFilter::Lanczos3
        } else {
            ResamplingFilter::Nearest
        },
    }
}

impl ProcessingInstructions {
    /// Whether stretch mode is requested; absent means aspect-preserving.
    pub open spec fn stretch_on(self) -> bool {
        self.stretch == Some(true)
    }

    /// The resolved target width for a source of width `sw`.
    pub open spec fn target_w(self, sw: u32) -> u32 {
        match self.w {
            Some(w) => w,
            None => sw,
        }
    }

    /// The resolved target height for a source of height `sh`.
    pub open spec fn target_h(self, sh: u32) -> u32 {
        match self.h {
            Some(h) => h,
            None => sh,
        }
    }
}

/// Which output extension a request names, if any of the supported ones.
pub open spec fn output_format_spec(e: Seq<char>) -> Option<OutputFormat> {
    if e == "webp"@ {
        Some(OutputFormat::Webp)
    } else if e == "png"@ {
        Some(OutputFormat::Png)
    } else if e == "jpeg"@ {
        Some(OutputFormat::Jpeg)
    } else {
        None
    }
}

/// Compares a string against a literal by value.
fn str_eq(a: &String, b: &str) -> (r: bool)
    ensures
        r == (a@ == b@),
{
    let bs = String::from_str(b);
    a.eq(&bs)
}

/// Validates the requested output extension once, at the system boundary:
/// only `webp`, `png` and `jpeg` are served.
pub fn parse_output_format(ext: &String) -> (r: Option<OutputFormat>)
    ensures
        r == output_format_spec(ext@),
{
    if str_eq(ext, "webp") {
        Some(OutputFormat::Webp)
    } else if str_eq(ext, "png") {
        Some(OutputFormat::Png)
    } else if str_eq(ext, "jpeg") {
        Some(OutputFormat::Jpeg)
    } else {
        None
    }
}

/// Resolves the resampling filter that a request's sampling name selects.
pub fn choose_filter(sampling: &Option<String>) -> (r: ResamplingFilter)
    ensures
        r == filter_spec(sampling_seq(*sampling)),
{
    match sampling {
        None => ResamplingFilter::Nearest,
        Some(name) => {
            if str_eq(name, "triangle") {
                ResamplingFilter::Triangle
            } else if str_eq(name, "catmullrom") {
                ResamplingFilter::CatmullRom
            } else if str_eq(name, "gaussian") {
                ResamplingFilter::Gaussian
            } else if str_eq(name, "lanczos3") {
                ResamplingFilter::Lanczos3
            } else {
                ResamplingFilter::Nearest
            }
        },
    }
}

/// How the output dimensions relate to the source dimensions under the
/// requested parameters: unchanged when the resolved target equals the
/// source, exactly the target in stretch mode, and fitted within the target
/// box otherwise.
pub open spec fn transform_dims(sw: u32, sh: u32, p: ProcessingInstructions, ow: u32, oh: u32) -> bool {
    let tw = p.target_w(sw);
    let th = p.target_h(sh);
    if tw == sw && th == sh {
        ow == sw && oh == sh
    } else if p.stretch_on() {
        ow == tw && oh == th
    } else {
        fit_dims_ok(sw, sh, tw, th, ow, oh)
    }
}

/// Whether a width or height fits the requested output encoder.
pub open spec fn dim_encodable(f: OutputFormat, d: u32) -> bool {
    match f {
        OutputFormat::Webp => 1 <= d <= WEBP_MAX_DIM,
        OutputFormat::Png => 1 <= d,
        OutputFormat::Jpeg => 1 <= d <= JPEG_MAX_DIM,
    }
}

/// A width or height bound of at least one pixel.
pub open spec fn at_least_one(d: u32) -> u32 {
    if d == 0 {
        1u32
    } else {
        d
    }
}

/// An upper bound on the pixel count of the transform's output under the
/// requested parameters.
pub open spec fn out_pixels_bound(sw: u32, sh: u32, p: ProcessingInstructions) -> int {
    let tw = p.target_w(sw);
    let th = p.target_h(sh);
    if tw == sw && th == sh {
        sw * sh
    } else if p.stretch_on() {
        tw * th
    } else {
        at_least_one(tw) * at_least_one(th)
    }
}

/// The transform's output never holds more pixels than `out_pixels_bound`
/// allows for its parameters.
proof fn lemma_out_area_bound(sw: u32, sh: u32, p: ProcessingInstructions, ow: u32, oh: u32)
    requires
        transform_dims(sw, sh, p, ow, oh),
    ensures
        ow * oh <= out_pixels_bound(sw, sh, p),
{
    let tw = p.target_w(sw);
    let th = p.target_h(sh);
    if tw == sw && th == sh {
    } else if p.stretch_on() {
    } else {
        let bw = at_least_one(tw);
        let bh = at_least_one(th);
        assert(ow <= bw && oh <= bh);
        lemma_mul_inequality(ow as int, bw as int, oh as int);
        lemma_mul_inequality(oh as int, bh as int, bw as int);
        lemma_mul_is_commutative(bw as int, oh as int);
        lemma_mul_is_commutative(bh as int, bw as int);
    }
}

/// The inputs on which the transform owes a successful result: the source
/// decodes, and every dimension the resize step can produce fits the
/// requested encoder.
pub open spec fn transform_succeeds(
    src: Option<(u32, u32)>,
    p: ProcessingInstructions,
    f: OutputFormat,
) -> bool {
    src matches Some(sd) && {
        let tw = p.target_w(sd.0);
        let th = p.target_h(sd.1);
        if tw == sd.0 && th == sd.1 {
            dim_encodable(f, sd.0) && dim_encodable(f, sd.1)
        } else if p.stretch_on() {
            dim_encodable(f, tw) && dim_encodable(f, th)
        } else {
            dim_encodable(f, at_least_one(tw)) && dim_encodable(f, at_least_one(th))
        }
    }
}

/// Transforms the canonical bytes of an image according to the request
/// parameters and encodes the result in the requested output format.
///
/// Every failure — the canonical bytes not decoding as WebP, or the resized
/// dimensions exceeding what the requested encoder accepts — is reported as
/// `CouldNotReadToBuffer`; on success the returned bytes are of the
/// requested format and decode to dimensions that the parameters prescribe:
/// with the `webp` decoder always for WebP output, and with the `image`
/// decoder within its allocation limit for every output format.
pub fn try_processing_image(
    buffer: Vec<u8>,
    optional: &ProcessingInstructions,
    format: OutputFormat,
) -> (r: Result<Vec<u8>, ImageServiceFailure>)
    ensures
        webp_decoded_dims(buffer@) is None ==> r == Err::<Vec<u8>, ImageServiceFailure>(
            ImageServiceFailure::CouldNotReadToBuffer,
        ),
        r is Err ==> r == Err::<Vec<u8>, ImageServiceFailure>(
            ImageServiceFailure::CouldNotReadToBuffer,
        ),
        r matches Ok(out) ==> {
            &&& webp_decoded_dims(buffer@) matches Some(sd)
            &&& (decoded_dims(out@) matches Some(od) ==> transform_dims(
                sd.0,
                sd.1,
                *optional,
                od.0,
                od.1,
            ))
            &&& (format == OutputFormat::Webp ==> (webp_decoded_dims(out@) matches Some(wd)
                && transform_dims(sd.0, sd.1, *optional, wd.0, wd.1)))
            &&& (out_pixels_bound(sd.0, sd.1, *optional) <= (DECODE_MAX_PIXELS as int)
                ==> decoded_dims(out@) is Some)
            &&& sniffed_format_of(out@) == match format {
                OutputFormat::Webp => SniffedFormat::WebP,
                OutputFormat::Png => SniffedFormat::Png,
                OutputFormat::Jpeg => SniffedFormat::Jpeg,
            }
        },
        transform_succeeds(webp_decoded_dims(buffer@), *optional, format) ==> r is Ok,
{
    let img = match decode_canonical_webp(&buffer) {
        Some(i) => i,
        None => {
            return Err(ImageServiceFailure::CouldNotReadToBuffer);
        },
    };
    let sw = img.get_width();
    let sh = img.get_height();
    let tw = match optional.w {
        Some(w) => w,
        None => sw,
    };
    let th = match optional.h {
        Some(h) => h,
        None => sh,
    };
    let filter = choose_filter(&optional.sampling);
    let stretch = match optional.stretch {
        Some(b) => b,
        None => false,
    };
    let out_img = if tw == sw && th == sh {
        img
    } else if stretch {
        resize_exact_to(&img, tw, th, filter)
    } else {
        resize_to_fit(&img, tw, th, filter)
    };
    let ow = out_img.get_width();
    let oh = out_img.get_height();
    proof {
        lemma_out_area_bound(sw, sh, *optional, ow, oh);
    }
    if ow == 0 || oh == 0 {
        return Err(ImageServiceFailure::CouldNotReadToBuffer);
    }
    match format {
        OutputFormat::Webp => {
            if ow <= WEBP_MAX_DIM && oh <= WEBP_MAX_DIM {
                Ok(encode_webp_lossless(&out_img))
            } else {
                Err(ImageServiceFailure::CouldNotReadToBuffer)
            }
        },
        OutputFormat::Png => {
            match encode_png(&out_img) {
                Some(b) => Ok(b),
                None => Err(ImageServiceFailure::CouldNotReadToBuffer),
            }
        },
        OutputFormat::Jpeg => {
            match encode_jpeg_max_quality(&out_img) {
                Some(b) => Ok(b),
                None => Err(ImageServiceFailure::CouldNotReadToBuffer),
            }
        },
    }
}

/// Stretch mode ignores the source aspect ratio: the output has exactly
/// the resolved target dimensions.
pub proof fn lemma_stretch_exact(sw: u32, sh: u32, p: ProcessingInstructions, ow: u32, oh: u32)
    requires
        p.stretch_on(),
        transform_dims(sw, sh, p, ow, oh),
    ensures
        ow == p.target_w(sw),
        oh == p.target_h(sh),
{
}

/// Aspect preservation for a width-only request: with only `w` given, no
/// stretch, and the scaled height landing on a whole pixel, the output is
/// exactly `tw` wide and keeps the source's height-to-width ratio exactly:
/// `oh * sw == tw * sh`.
pub proof fn lemma_aspect_preserved_width_only(
    sw: u32,
    sh: u32,
    p: ProcessingInstructions,
    tw: u32,
    ow: u32,
    oh: u32,
)
    requires
        1 <= sw,
        1 <= sh,
        p.w == Some(tw),
        p.h is None,
        !p.stretch_on(),
        1 <= tw <= sw,
        tw * sh >= sw,
        (tw * sh) % (sw as int) == 0,
        transform_dims(sw, sh, p, ow, oh),
    ensures
        ow == tw,
        oh == tw * sh / (sw as int),
        oh * sw == tw * sh,
{
    assert(p.target_w(sw) == tw);
    assert(p.target_h(sh) == sh);
    if tw == sw {
        assert(ow == sw && oh == sh);
        lemma_div_multiples_vanish(sh as int, sw as int);
    } else {
        lemma_mul_inequality(tw as int, sw as int, sh as int);
        assert(tw * sh <= sh * sw);
        assert(ow == tw && oh == tw * sh / (sw as int));
    }
    assert(oh == tw * sh / (sw as int));
    lemma_fundamental_div_mod(tw * sh, sw as int);
    assert(tw * sh == (sw as int) * ((tw * sh) / (sw as int)));
    assert(tw * sh == (sw as int) * (oh as int));
    assert((oh as int) * (sw as int) == (sw as int) * (oh as int)) by (nonlinear_arith);
    assert(oh * sw == tw * sh);
}

/// Aspect preservation for a width-only request, in general: with only `w`
/// given and no stretch, as long as the scaled height does not collapse
/// below half a pixel and the scales stay within `FIT_SAFE_PRODUCT`, the
/// output hits the requested width exactly and keeps the source's
/// height-to-width ratio to within half a pixel: `2*|oh*sw - tw*sh| <= sw`.
pub proof fn lemma_aspect_preserved_within_rounding(
    sw: u32,
    sh: u32,
    p: ProcessingInstructions,
    tw: u32,
    ow: u32,
    oh: u32,
)
    requires
        1 <= sw,
        1 <= sh,
        p.w == Some(tw),
        p.h is None,
        !p.stretch_on(),
        1 <= tw <= sw,
        2 * tw * sh >= sw,
        sh * sw < FIT_SAFE_PRODUCT,
        transform_dims(sw, sh, p, ow, oh),
    ensures
        ow == tw,
        2 * (oh * sw - tw * sh) <= sw,
        2 * (tw * sh - oh * sw) <= sw,
{
    assert(p.target_w(sw) == tw);
    assert(p.target_h(sh) == sh);
    lemma_mul_is_commutative(sw as int, sh as int);
    if tw == sw {
        assert(ow == sw && oh == sh);
        assert(oh * sw == tw * sh);
    } else {
        lemma_mul_inequality(tw as int, sw as int, sh as int);
        assert(tw * sh <= sh * sw);
    }
}

/// An unknown sampling name is not an error: it resolves to the same
/// resampling filter as an absent one — nearest-neighbor.
pub proof fn lemma_unknown_sampling_nearest(name: Seq<char>)
    requires
        name != "triangle"@,
        name != "catmullrom"@,
        name != "gaussian"@,
        name != "lanczos3"@,
    ensures
        filter_spec(Some(name)) == filter_spec(None::<Seq<char>>),
        filter_spec(Some(name)) == ResamplingFilter::Nearest,
{
}

} // verus!
