use vstd::prelude::*;

verus! {

/// The four ways a unit of work can fail, each carrying a description of
/// the underlying cause.
#[derive(Debug)]
pub enum ComicError {
    DownloadFailed(String),
    GetListFailed(String),
    GetBookFailed(String),
    ArchiveFailed(String),
}

impl ComicError {
    /// A failed image fetch.
    pub fn to_download(cause: String) -> (r: ComicError)
        ensures
            r == ComicError::DownloadFailed(cause),
    {
        ComicError::DownloadFailed(cause)
    }

    /// A failed image-list resolution.
    pub fn to_get_list(cause: String) -> (r: ComicError)
        ensures
            r == ComicError::GetListFailed(cause),
    {
        ComicError::GetListFailed(cause)
    }

    /// A failed catalog resolution.
    pub fn to_get_book(cause: String) -> (r: ComicError)
        ensures
            r == ComicError::GetBookFailed(cause),
    {
        ComicError::GetBookFailed(cause)
    }

    /// A failed archive operation.
    pub fn to_archive(cause: String) -> (r: ComicError)
        ensures
            r == ComicError::ArchiveFailed(cause),
    {
        ComicError::ArchiveFailed(cause)
    }

    /// The description of the cause.
    pub fn cause(&self) -> (r: &String)
        ensures
            r@ == self.cause_text(),
    {
        match self {
            ComicError::DownloadFailed(s) => s,
            ComicError::GetListFailed(s) => s,
            ComicError::GetBookFailed(s) => s,
            ComicError::ArchiveFailed(s) => s,
        }
    }

    pub open spec fn cause_text(&self) -> Seq<char> {
        match self {
            ComicError::DownloadFailed(s) => s@,
            ComicError::GetListFailed(s) => s@,
            ComicError::GetBookFailed(s) => s@,
            ComicError::ArchiveFailed(s) => s@,
        }
    }
}

} // verus!
