//! The errors that the client reports.
use vstd::prelude::*;
use reqwest::Error as RequestError;

verus! {

/// Everything that can go wrong while talking to the service.
///
/// A failure of the transport (`HttpRequestError`) is kept apart from an
/// answer that the service gave but that is not a success: a status code other
/// than OK (`HttpStatusCodeError`), or an envelope whose status is not "ok"
/// (`ApiStatusError`). An envelope whose status is "ok" but whose data is
/// not what the request expects is `InvalidResponseData`.
#[derive(Debug)]
pub enum Error {
    HttpRequestError(RequestError),
    HttpStatusCodeError(url::Url, u16),
    ApiStatusError(url::Url, String),
    EmptyServerList,
    InvalidFilePath(std::path::PathBuf, String),
    CouldntOpenFile(std::path::PathBuf, String),
    InvalidContentUrl(url::Url, String),
    StdIoError(std::io::Error),
    InvalidResponseData(url::Url, String),
}

} // verus!
