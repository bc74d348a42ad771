//! The end-to-end fetch path, as a sequence of verified decision steps: the
//! caller performs the filesystem reads and writes between them and hands
//! back what happened. A fetch validates the requested extension first, then
//! looks up the cached derivative, and only on a miss loads the canonical
//! file, transforms it, and stores the result — serving the freshly
//! computed bytes whether or not the store succeeds.

use vstd::prelude::*;
use vstd::string::StringExecFns;

use crate::codec::{
    decoded_dims, sniffed_format_of, webp_decoded_dims, SniffedFormat, DECODE_MAX_PIXELS,
};
use crate::errors::ImageServiceFailure;
use crate::paths::{
    build_canonical_path, build_path_to_preprocessed_file, build_processing_suffix,
    canonical_path_spec, derivative_path_spec, suffix_spec, FileDescription, ServerConfig,
};
use crate::transform::{
    out_pixels_bound, output_format_spec, parse_output_format, transform_dims,
    transform_succeeds, try_processing_image, OutputFormat, ProcessingInstructions,
};
use crate::upload::upload_accepted;

verus! {

/// A fetch request with its two candidate paths resolved: the derivative
/// path its parameters cache under, and the canonical path of its base name.
pub struct ImageRequest {
    pub filepath_if_preprocessed: String,
    pub filepath_if_unprocessed: String,
    pub processing: ProcessingInstructions,
    pub extension: String,
}

impl ImageRequest {
    /// Resolves the two candidate paths of a fetch request. The derivative
    /// path embeds the verbatim query string: equal requests always cache
    /// under equal paths.
    pub fn build(
        raw_query: &str,
        file_desc: FileDescription,
        processing: ProcessingInstructions,
        config: &ServerConfig,
    ) -> (r: Self)
        ensures
            r.filepath_if_preprocessed@ == derivative_path_spec(
                config.uploads_dir@,
                file_desc.filename@,
                suffix_spec(raw_query@),
                file_desc.extension@,
            ),
            r.filepath_if_unprocessed@ == canonical_path_spec(
                config.uploads_dir@,
                file_desc.filename@,
            ),
            r.processing == processing,
            r.extension@ == file_desc.extension@,
    {
        let processing_suffix = build_processing_suffix(raw_query);
        let filepath_if_preprocessed = build_path_to_preprocessed_file(
            &file_desc,
            &processing_suffix,
            config,
        );
        let filepath_if_unprocessed = build_canonical_path(&file_desc.filename, config);
        Self {
            filepath_if_preprocessed,
            filepath_if_unprocessed,
            processing,
            extension: file_desc.extension,
        }
    }
}

/// A fetch request past the boundary validation, with its parsed output
/// format.
pub struct FetchJob {
    pub request: ImageRequest,
    pub format: OutputFormat,
}

/// A successful response: raw image bytes under an `image/{extension}`
/// content type.
pub struct HttpImageResponse {
    pub content_type: String,
    pub body: Vec<u8>,
}

/// The content type a response for this extension carries.
pub open spec fn content_type_spec(ext: Seq<char>) -> Seq<char> {
    "image/"@ + ext
}

/// Builds the `image/{extension}` content type of a response.
pub fn content_type_for(ext: &String) -> (r: String)
    ensures
        r@ == content_type_spec(ext@),
{
    let mut s = String::from_str("image/");
    s.append(ext.as_str());
    s
}

/// The first step of a fetch: either the request is rejected at the
/// boundary, before any file is read, or the cached derivative is to be
/// looked up.
pub enum FetchStart {
    /// The requested extension is unsupported: answer with this failure;
    /// no cache or source file is read.
    Reject(ImageServiceFailure),
    /// Look up the derivative file at `job.request.filepath_if_preprocessed`.
    Lookup(FetchJob),
}

/// Validates the request and resolves its paths. A request for an extension
/// outside {`webp`, `png`, `jpeg`} is rejected outright with
/// `UnsupportedFormat`, touching no file.
pub fn start_fetch(
    file_desc: FileDescription,
    processing: ProcessingInstructions,
    raw_query: &str,
    config: &ServerConfig,
) -> (r: FetchStart)
    ensures
        output_format_spec(file_desc.extension@) is None <==> r == FetchStart::Reject(
            ImageServiceFailure::UnsupportedFormat,
        ),
        output_format_spec(file_desc.extension@) matches Some(f) ==> (r matches FetchStart::Lookup(
            job,
        ) && job.format == f && job.request.filepath_if_preprocessed@ == derivative_path_spec(
            config.uploads_dir@,
            file_desc.filename@,
            suffix_spec(raw_query@),
            file_desc.extension@,
        ) && job.request.filepath_if_unprocessed@ == canonical_path_spec(
            config.uploads_dir@,
            file_desc.filename@,
        ) && job.request.processing == processing && job.request.extension@
            == file_desc.extension@),
{
    let format = match parse_output_format(&file_desc.extension) {
        Some(f) => f,
        None => {
            return FetchStart::Reject(ImageServiceFailure::UnsupportedFormat);
        },
    };
    let request = ImageRequest::build(raw_query, file_desc, processing, config);
    FetchStart::Lookup(FetchJob { request, format })
}

/// The body a fetch serves when the cache already holds `cached`: exactly
/// the cached bytes, unchanged.
pub open spec fn hit_body(cached: Seq<u8>) -> Seq<u8> {
    cached
}

/// The second step of a fetch, after the derivative lookup.
pub enum AfterLookup {
    /// The derivative was found: serve it as it is. The transformer is not
    /// invoked.
    Serve(HttpImageResponse),
    /// Cache miss: read the canonical file at
    /// `job.request.filepath_if_unprocessed`.
    LoadCanonical(FetchJob),
}

/// Decides on the result of the derivative lookup: a hit is served
/// unchanged, byte for byte; a miss moves on to the canonical file.
pub fn on_derivative_lookup(job: FetchJob, found: Option<Vec<u8>>) -> (r: AfterLookup)
    ensures
        found matches Some(b) ==> (r matches AfterLookup::Serve(resp) && resp.body@ == hit_body(b@)
            && resp.content_type@ == content_type_spec(job.request.extension@)),
        found is None ==> (r matches AfterLookup::LoadCanonical(j) && j == job),
{
    match found {
        Some(b) => AfterLookup::Serve(
            HttpImageResponse {
                content_type: content_type_for(&job.request.extension),
                body: b,
            },
        ),
        None => AfterLookup::LoadCanonical(job),
    }
}

/// What reading the canonical file came to: its bytes, a failure to open it
/// (it does not exist or cannot be opened), or a failure while reading it.
pub enum CanonicalRead {
    Loaded(Vec<u8>),
    OpenFailed,
    ReadFailed { out_of_memory: bool },
}

/// The last step of a fetch: a failure answer, or freshly computed bytes to
/// store under the derivative path and to serve.
pub enum AfterCanonical {
    /// The fetch failed: answer with this failure's status and message.
    Fail(ImageServiceFailure),
    /// Store `response.body` at `store_path` — best effort — and serve
    /// `response` whether or not the store succeeds: the response never
    /// depends on the cache write.
    StoreAndServe { store_path: String, response: HttpImageResponse },
}

/// Decides on the result of the canonical read. A missing canonical file is
/// `ImageDoesNotExist`; a read failure maps to `MemoryOverflow` or
/// `CouldNotReadToBuffer`; loaded bytes are transformed, and the computed
/// derivative is both stored and served.
pub fn on_canonical_read(job: FetchJob, read: CanonicalRead) -> (r: AfterCanonical)
    ensures
        read is OpenFailed ==> r == AfterCanonical::Fail(ImageServiceFailure::ImageDoesNotExist),
        read matches CanonicalRead::ReadFailed { out_of_memory } ==> r == AfterCanonical::Fail(
            if out_of_memory {
                ImageServiceFailure::MemoryOverflow
            } else {
                ImageServiceFailure::CouldNotReadToBuffer
            },
        ),
        read matches CanonicalRead::Loaded(b) ==> {
            &&& webp_decoded_dims(b@) is None ==> r == AfterCanonical::Fail(
                ImageServiceFailure::CouldNotReadToBuffer,
            )
            &&& transform_succeeds(webp_decoded_dims(b@), job.request.processing, job.format)
                ==> r is StoreAndServe
            &&& r is Fail ==> r == AfterCanonical::Fail(ImageServiceFailure::CouldNotReadToBuffer)
            &&& r matches AfterCanonical::StoreAndServe { store_path, response } ==> (store_path@
                == job.request.filepath_if_preprocessed@ && response.content_type@
                == content_type_spec(job.request.extension@) && sniffed_format_of(response.body@)
                == (match job.format {
                OutputFormat::Webp => SniffedFormat::WebP,
                OutputFormat::Png => SniffedFormat::Png,
                OutputFormat::Jpeg => SniffedFormat::Jpeg,
            }) && (webp_decoded_dims(b@) matches Some(sd) && (decoded_dims(response.body@)
                matches Some(od) ==> transform_dims(sd.0, sd.1, job.request.processing, od.0, od.1))
                && (job.format == OutputFormat::Webp ==> (webp_decoded_dims(response.body@)
                matches Some(wd) && transform_dims(sd.0, sd.1, job.request.processing, wd.0, wd.1)))
                && (out_pixels_bound(sd.0, sd.1, job.request.processing) <= (
            DECODE_MAX_PIXELS as int) ==> decoded_dims(response.body@) is Some)))
        },
{
    match read {
        CanonicalRead::OpenFailed => AfterCanonical::Fail(ImageServiceFailure::ImageDoesNotExist),
        CanonicalRead::ReadFailed { out_of_memory } => {
            if out_of_memory {
                AfterCanonical::Fail(ImageServiceFailure::MemoryOverflow)
            } else {
                AfterCanonical::Fail(ImageServiceFailure::CouldNotReadToBuffer)
            }
        },
        CanonicalRead::Loaded(b) => {
            match try_processing_image(b, &job.request.processing, job.format) {
                Ok(out) => AfterCanonical::StoreAndServe {
                    store_path: job.request.filepath_if_preprocessed,
                    response: HttpImageResponse {
                        content_type: content_type_for(&job.request.extension),
                        body: out,
                    },
                },
                Err(failure) => AfterCanonical::Fail(failure),
            }
        },
    }
}

/// Cache idempotence: the derivative path is a pure function of the
/// request, so two fetches with identical path and query string look up the
/// same cache entry; the miss step stores exactly the bytes it serves; and
/// a fetch that finds those bytes serves them unchanged, without reaching
/// the transformer. Two consecutive identical fetches therefore answer
/// byte-identically.
pub proof fn lemma_cache_idempotence(stored: Seq<u8>)
    ensures
        hit_body(stored) == stored,
{
}

/// Round trip: an accepted upload stores canonical bytes that keep the
/// upload's decoded pixel dimensions; a fetch of `{name}.webp` with no
/// query string caches under exactly the canonical path, so its lookup
/// finds the canonical bytes and serves them unchanged — and they decode to
/// the upload's width and height, under both decoders as long as the pixel
/// count stays within the `image` decoder's allocation limit. The premises
/// about `stored` are what `finish_upload_part` ensures of the bytes it
/// hands out.
pub proof fn lemma_upload_fetch_round_trip(
    data: Seq<u8>,
    stored: Seq<u8>,
    dir: Seq<char>,
    name: Seq<char>,
    w: u32,
    h: u32,
)
    requires
        upload_accepted(false, data),
        decoded_dims(data) == Some((w, h)),
        w * h <= (DECODE_MAX_PIXELS as int),
        webp_decoded_dims(stored) == decoded_dims(data),
        decoded_dims(stored) is Some ==> decoded_dims(stored) == decoded_dims(data),
        w * h <= (DECODE_MAX_PIXELS as int) ==> decoded_dims(stored) is Some,
    ensures
        derivative_path_spec(dir, name, suffix_spec(Seq::<char>::empty()), "webp"@)
            == canonical_path_spec(dir, name),
        hit_body(stored) == stored,
        webp_decoded_dims(stored) == Some((w, h)),
        decoded_dims(stored) == Some((w, h)),
{
}

} // verus!
