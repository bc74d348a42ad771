//! Normalization of uploaded files: per-part validation, re-encoding to the
//! canonical lossless WebP representation, and the per-part outcome that the
//! batch response reports. One part's failure never affects another part.

use vstd::prelude::*;
use vstd::string::StringExecFns;

use crate::codec::{
    decode_image, decoded_dims, encode_webp_lossless, sniff_format, sniffed_format_of,
    webp_decoded_dims, SniffedFormat, DECODE_MAX_PIXELS, WEBP_MAX_DIM,
};
use crate::paths::{strip_extension, strip_extension_spec};

verus! {

/// The per-part outcome of an upload: the accepted filename, when one was
/// provided, and the ordered list of errors; an empty list signals success.
pub struct UploadResult {
    pub filename: Option<String>,
    pub errors: Vec<String>,
}

impl UploadResult {
    /// A fresh outcome: no filename, no errors.
    pub fn new() -> (r: Self)
        ensures
            r.filename is None,
            r.errors@.len() == 0,
    {
        Self { filename: None, errors: Vec::new() }
    }

    /// Appends one error message to the outcome, keeping everything else.
    pub fn with_error(self, message: &str) -> (r: Self)
        ensures
            r.filename == self.filename,
            r.errors@.len() == self.errors@.len() + 1,
            forall|i: int| 0 <= i < self.errors@.len() ==> r.errors@[i] == self.errors@[i],
            r.errors@.last()@ == message@,
    {
        let mut this = self;
        this.errors.push(String::from_str(message));
        this
    }
}

/// The message reported when a form part carries no Content-Disposition.
pub open spec fn msg_missing_disposition() -> Seq<char> {
    "The multi-part form was improperly formatted: Content-Disposition was not present"@
}

/// The message reported when a form part names no file.
pub open spec fn msg_missing_filename() -> Seq<char> {
    "The multi-part form was improperly formatted: A filename was not provided"@
}

/// The message reported when a canonical file of the same name exists.
pub open spec fn msg_duplicate() -> Seq<char> {
    "Another file with this name already exists."@
}

/// The message reported when a part carries no data.
pub open spec fn msg_empty() -> Seq<char> {
    "No file data was provided."@
}

/// The message reported when the data is of no accepted input format.
pub open spec fn msg_unsupported() -> Seq<char> {
    "Unsupported file format. Try converting to .png, .jpeg, or .webp before uploading."@
}

/// The message reported when the data does not decode.
pub open spec fn msg_undecodable() -> Seq<char> {
    "File data could not be decoded."@
}

/// The message reported when the decoded image exceeds what the canonical
/// WebP encoding can hold.
pub open spec fn msg_dims_unsupported() -> Seq<char> {
    "Image dimensions are not supported."@
}

/// A part that passed the filename checks: the filename to report on
/// success, and the base name that decides the canonical path.
pub struct PendingUpload {
    pub filename: Option<String>,
    pub base_name: String,
}

/// Whether a sniffed input format is in the accepted set {PNG, JPEG, WEBP}.
pub open spec fn accepted_format(f: SniffedFormat) -> bool {
    f != SniffedFormat::Unrecognized
}

/// Whether decoded dimensions fit the canonical lossless WebP encoding.
pub open spec fn webp_dims_ok(w: u32, h: u32) -> bool {
    1 <= w <= WEBP_MAX_DIM && 1 <= h <= WEBP_MAX_DIM
}

/// The inputs on which an upload part is accepted and a canonical file is
/// written: no canonical file of that name yet, data present, of an
/// accepted format, decodable, and of storable dimensions.
pub open spec fn upload_accepted(exists: bool, data: Seq<u8>) -> bool {
    &&& !exists
    &&& data.len() > 0
    &&& accepted_format(sniffed_format_of(data))
    &&& decoded_dims(data) matches Some(d) && webp_dims_ok(d.0, d.1)
}

/// Checks a form part's metadata: a part without a Content-Disposition or
/// without a filename is rejected outright; otherwise the base name is
/// derived from the filename by stripping its extension, and the filename —
/// when non-empty — is recorded for the outcome.
pub fn begin_upload_part(has_disposition: bool, filename: Option<String>) -> (r: Result<
    PendingUpload,
    UploadResult,
>)
    ensures
        !has_disposition ==> (r matches Err(u) && u.filename is None && u.errors@.len() == 1
            && u.errors@[0]@ == msg_missing_disposition()),
        has_disposition && filename is None ==> (r matches Err(u) && u.filename is None
            && u.errors@.len() == 1 && u.errors@[0]@ == msg_missing_filename()),
        has_disposition ==> (filename matches Some(f) ==> (r matches Ok(p) && p.base_name@
            == strip_extension_spec(f@) && (f@.len() == 0 ==> p.filename is None) && (f@.len() > 0
            ==> (p.filename matches Some(pf) && pf@ == f@)))),
{
    if !has_disposition {
        return Err(UploadResult::new().with_error(
            "The multi-part form was improperly formatted: Content-Disposition was not present",
        ));
    }
    match filename {
        None => Err(UploadResult::new().with_error(
            "The multi-part form was improperly formatted: A filename was not provided",
        )),
        Some(f) => {
            let base_name = strip_extension(f.as_str());
            if f.as_str().is_empty() {
                Ok(PendingUpload { filename: None, base_name })
            } else {
                Ok(PendingUpload { filename: Some(f), base_name })
            }
        },
    }
}

/// Decides one upload part, given whether a canonical file of its base name
/// already exists and the part's assembled bytes. Returns the outcome to
/// report and, exactly when the part is accepted, the canonical WebP bytes
/// to store: a lossless re-encoding of the upload that keeps its pixel
/// dimensions — under the WebP decoder always, and under the `image`
/// decoder within its allocation limit. No outcome ever aborts the rest of
/// the batch.
pub fn finish_upload_part(pending: PendingUpload, exists: bool, data: Vec<u8>) -> (r: (
    UploadResult,
    Option<Vec<u8>>,
))
    ensures
        r.0.filename == pending.filename,
        r.0.errors@.len() == 0 <==> upload_accepted(exists, data@),
        r.1 is Some <==> upload_accepted(exists, data@),
        r.1 matches Some(s) ==> webp_decoded_dims(s@) == decoded_dims(data@) && (decoded_dims(s@)
            is Some ==> decoded_dims(s@) == decoded_dims(data@)) && (decoded_dims(data@)
            matches Some(d) && d.0 * d.1 <= (DECODE_MAX_PIXELS as int) ==> decoded_dims(s@)
            is Some) && sniffed_format_of(s@) == SniffedFormat::WebP,
        exists ==> r.0.errors@.len() == 1 && r.0.errors@[0]@ == msg_duplicate(),
        !exists && data@.len() == 0 ==> r.0.errors@.len() == 1 && r.0.errors@[0]@ == msg_empty(),
        !exists && data@.len() > 0 && !accepted_format(sniffed_format_of(data@)) ==> r.0.errors@
            .len() == 1 && r.0.errors@[0]@ == msg_unsupported(),
        !exists && data@.len() > 0 && accepted_format(sniffed_format_of(data@)) && decoded_dims(
            data@,
        ) is None ==> r.0.errors@.len() == 1 && r.0.errors@[0]@ == msg_undecodable(),
        (!exists && data@.len() > 0 && accepted_format(sniffed_format_of(data@)) && (decoded_dims(
            data@,
        ) matches Some(d) && !webp_dims_ok(d.0, d.1))) ==> r.0.errors@.len() == 1 && r.0.errors@[0]@
            == msg_dims_unsupported(),
{
    let mut result = UploadResult::new();
    result.filename = pending.filename;
    if exists {
        return (result.with_error("Another file with this name already exists."), None);
    }
    if data.len() == 0 {
        return (result.with_error("No file data was provided."), None);
    }
    match sniff_format(&data) {
        SniffedFormat::Unrecognized => {
            return (
                result.with_error(
                    "Unsupported file format. Try converting to .png, .jpeg, or .webp before uploading.",
                ),
                None,
            );
        },
        _ => {},
    }
    let img = match decode_image(&data) {
        Some(i) => i,
        None => {
            return (result.with_error("File data could not be decoded."), None);
        },
    };
    let w = img.get_width();
    let h = img.get_height();
    if w == 0 || h == 0 || w > WEBP_MAX_DIM || h > WEBP_MAX_DIM {
        return (result.with_error("Image dimensions are not supported."), None);
    }
    let stored = encode_webp_lossless(&img);
    (result, Some(stored))
}

/// No upload is ever accepted against an existing canonical file: the
/// canonical image of a base name is written once and never overwritten.
pub proof fn lemma_duplicate_upload_rejected(data: Seq<u8>)
    ensures
        !upload_accepted(true, data),
{
}

} // verus!
