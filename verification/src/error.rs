//! The ways a download can fail.

use vstd::prelude::*;
use vstd::string::StringExecFns;

verus! {

/// The kind of failure met during a download.
#[derive(Clone, Copy, Debug, PartialEq, Eq, Structural)]
pub enum DownloadError {
    /// The target is not a well-formed URL.
    UrlParse,
    /// The request could not be sent, or the body could not be read to its end.
    Transport,
    /// The output file could not be opened, created or written.
    FileIo,
}

impl DownloadError {
    /// A short description of the failure, for the error stream.
    pub fn message(&self) -> (text: String)
        ensures
            text@ == (match *self {
                DownloadError::UrlParse => "invalid url or parsing error"@,
                DownloadError::Transport => "transport failure"@,
                DownloadError::FileIo => "failed to write to file"@,
            }),
    {
        match self {
            DownloadError::UrlParse => String::from_str("invalid url or parsing error"),
            DownloadError::Transport => String::from_str("transport failure"),
            DownloadError::FileIo => String::from_str("failed to write to file"),
        }
    }
}

} // verus!
