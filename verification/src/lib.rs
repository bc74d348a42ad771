//! An image-serving library: uploads are normalized to one canonical lossless
//! WebP file per base name, and fetches transform the canonical image on
//! demand (resize, re-encode) with the result cached under a deterministic
//! derivative path.

pub mod codec;
pub mod errors;
pub mod fetch;
pub mod paths;
pub mod transform;
pub mod upload;

pub use errors::ImageServiceFailure;
pub use paths::{FileDescription, ServerConfig};
