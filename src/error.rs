use vstd::prelude::*;

verus! {

/// Every way in which one item of work can fail.
#[derive(Debug)]
pub enum AppError {
    /// The input does not parse as a URL.
    MalformedUrl,
    /// The URL has no host.
    MissingHost,
    /// The host carries none of the accepted domain markers.
    UnrecognizedDomain,
    /// The transport failed; the text describes how.
    NetworkError(String),
    /// The request ran past its time limit.
    FetchTimeout,
    /// The server answered with a status outside the success range.
    HttpStatusError(u16),
    /// The page holds no usable feed link.
    FeedNotFound,
    /// The list of inputs could not be read; the text describes why.
    IoError(String),
}

impl AppError {
    /// A copy of this error.
    pub fn duplicate(&self) -> (r: AppError)
        ensures
            r == *self,
    {
        match self {
            AppError::MalformedUrl => AppError::MalformedUrl,
            AppError::MissingHost => AppError::MissingHost,
            AppError::UnrecognizedDomain => AppError::UnrecognizedDomain,
            AppError::NetworkError(m) => AppError::NetworkError(m.clone()),
            AppError::FetchTimeout => AppError::FetchTimeout,
            AppError::HttpStatusError(c) => AppError::HttpStatusError(*c),
            AppError::FeedNotFound => AppError::FeedNotFound,
            AppError::IoError(m) => AppError::IoError(m.clone()),
        }
    }
}

} // verus!
