//! The errors of downloading a file.

use vstd::prelude::*;

verus! {

/// An I/O error of the standard library, carried through unchanged.
#[verifier::external_type_specification]
#[verifier::external_body]
pub struct ExIoError(std::io::Error);

/// The text of an I/O error.
/// Wraps `std::io::Error`'s `Display`; nothing is claimed of the text, which
/// comes from the operating system.
#[verifier::external_body]
fn io_error_text(e: &std::io::Error) -> String {
    format!("{e}")
}

/// What can go wrong when downloading a file.
#[derive(Debug)]
pub enum DownloadError {
    /// The request could not be sent.
    ConnectionError,
    /// The server answered with a status that is not a success, if known.
    StatusError(Option<u16>),
    /// The response body could not be read.
    ResponseError,
    /// The file could not be written.
    IOError(std::io::Error),
}

/// The message of an error other than an I/O error, or the prefix of an I/O
/// error's message.
pub open spec fn download_error_text(e: DownloadError) -> Seq<char> {
    match e {
        DownloadError::ConnectionError => "failed to connect to the server"@,
        DownloadError::StatusError(_) => "the server responded with a non-success code"@,
        DownloadError::ResponseError => "failed to read response body"@,
        DownloadError::IOError(_) => "failed to save a file: "@,
    }
}

impl DownloadError {
    /// The error's message: a fixed text per kind; an I/O error's message is
    /// `failed to save a file: ` followed by the I/O error's own text.
    pub fn message(&self) -> (r: String)
        ensures
            match self {
                DownloadError::IOError(_) => r@.len() >= download_error_text(*self).len()
                    && r@.take(download_error_text(*self).len() as int) == download_error_text(*self),
                _ => r@ == download_error_text(*self),
            },
    {
        match self {
            DownloadError::ConnectionError => "failed to connect to the server".to_owned(),
            DownloadError::StatusError(_) => "the server responded with a non-success code".to_owned(),
            DownloadError::ResponseError => "failed to read response body".to_owned(),
            DownloadError::IOError(e) => {
                let mut s = "failed to save a file: ".to_owned();
                let t = io_error_text(e);
                let ghost p = s@;
                s.append(t.as_str());
                assert(s@.take(p.len() as int) =~= p);
                s
            },
        }
    }
}

} // verus!
