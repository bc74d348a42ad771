//! The failure kinds a fetch request can end in, with their human-readable
//! messages and HTTP status codes.

use vstd::prelude::*;
use vstd::string::StringExecFns;

verus! {

/// Why a fetch request could not be answered with image bytes.
#[derive(Clone, Copy, PartialEq, Eq, Structural, Debug)]
pub enum ImageServiceFailure {
    /// The requested output extension is not one of `webp`, `png`, `jpeg`.
    UnsupportedFormat,
    /// No canonical image is stored under the requested base name.
    ImageDoesNotExist,
    /// The canonical file could not be read into memory for lack of memory.
    MemoryOverflow,
    /// The canonical bytes could not be loaded or processed as an image.
    CouldNotReadToBuffer,
}

/// The message that `to_string` returns for each failure kind.
pub open spec fn failure_message(f: ImageServiceFailure) -> Seq<char> {
    match f {
        ImageServiceFailure::UnsupportedFormat => "Unsupported file format"@,
        ImageServiceFailure::ImageDoesNotExist => "Requested image does not exist"@,
        ImageServiceFailure::MemoryOverflow => "Failed to allocate adequate memory"@,
        ImageServiceFailure::CouldNotReadToBuffer => "Could not load image into memory buffer"@,
    }
}

/// The HTTP status code that each failure kind maps to.
pub open spec fn failure_status(f: ImageServiceFailure) -> u16 {
    match f {
        ImageServiceFailure::UnsupportedFormat => 400,
        ImageServiceFailure::ImageDoesNotExist => 404,
        ImageServiceFailure::MemoryOverflow => 500,
        ImageServiceFailure::CouldNotReadToBuffer => 500,
    }
}

impl ImageServiceFailure {
    /// The human-readable message served as the body of an error response.
    pub fn to_string(&self) -> (r: String)
        ensures
            r@ == failure_message(*self),
    {
        match self {
            Self::UnsupportedFormat => String::from_str("Unsupported file format"),
            Self::ImageDoesNotExist => String::from_str("Requested image does not exist"),
            Self::MemoryOverflow => String::from_str("Failed to allocate adequate memory"),
            Self::CouldNotReadToBuffer => String::from_str("Could not load image into memory buffer"),
        }
    }

    /// The HTTP status code of the error response for this failure.
    pub fn http_status(&self) -> (r: u16)
        ensures
            r == failure_status(*self),
    {
        match self {
            Self::UnsupportedFormat => 400,
            Self::ImageDoesNotExist => 404,
            Self::MemoryOverflow => 500,
            Self::CouldNotReadToBuffer => 500,
        }
    }
}

} // verus!
