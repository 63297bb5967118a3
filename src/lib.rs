//! Fetches a paginated comic catalog, resolves the image list of each
//! chapter, lays the images out on disk and packs each chapter into an
//! archive.
//!
//! The library holds the decisions of that pipeline: decoding the catalog
//! and image responses, ordering chapters, pairing image paths with their
//! access tokens, naming the files of a chapter and framing its archive.
//! Network and file system access stay with the caller.

pub mod error;
pub mod text;
pub mod chapter;
pub mod book;
pub mod json;
pub mod response;
pub mod archive;
pub mod request;

pub use error::ComicError;
