//! The lines the downloader reports while it works.

use vstd::prelude::*;

use crate::error::DownloadError;
use crate::verbosity::Verbosity;

verus! {

/// One line of the downloader's report.
#[derive(Clone, Debug, PartialEq, Eq)]
pub enum Notice {
    /// The status code of the response.
    Status(u16),
    /// The declared content length, or that it is missing.
    ContentLength(Option<u64>),
    /// The declared content type, or that it is missing.
    ContentType(Option<String>),
    /// The name of the file the body is saved to.
    SavingTo(String),
    /// The file was written.
    Saved,
    /// A failure of the given kind, with the reason.
    Failed(DownloadError, String),
}

/// A notice as contracts see it.
pub enum NoticeView {
    /// The status code of the response.
    Status(u16),
    /// The declared content length, or that it is missing.
    ContentLength(Option<u64>),
    /// The declared content type, or that it is missing.
    ContentType(Option<Seq<char>>),
    /// The name of the file the body is saved to.
    SavingTo(Seq<char>),
    /// The file was written.
    Saved,
    /// A failure of the given kind, with the reason.
    Failed(DownloadError, Seq<char>),
}

/// Where a notice is printed.
#[derive(Clone, Copy, Debug, PartialEq, Eq, Structural)]
pub enum Stream {
    /// The standard output.
    Output,
    /// The error stream.
    Error,
}

impl NoticeView {
    /// True for the lines that only inform about the response: they are
    /// suppressed when the downloader is quiet.
    pub open spec fn is_informational(self) -> bool {
        self is Status || self is ContentLength || self is ContentType
    }

    /// The stream the notice goes to: a failure is reported on the error
    /// stream, everything else on the standard output.
    pub open spec fn stream(self) -> Stream {
        if self is Failed {
            Stream::Error
        } else {
            Stream::Output
        }
    }

    /// Whether the notice is printed under the given verbosity.
    pub open spec fn is_shown(self, verbosity: Verbosity) -> bool {
        verbosity == Verbosity::Verbose || !self.is_informational()
    }
}

impl DeepView for Notice {
    type V = NoticeView;

    open spec fn deep_view(&self) -> NoticeView {
        match *self {
            Notice::Status(code) => NoticeView::Status(code),
            Notice::ContentLength(length) => NoticeView::ContentLength(length),
            Notice::ContentType(media_type) => NoticeView::ContentType(media_type.deep_view()),
            Notice::SavingTo(name) => NoticeView::SavingTo(name@),
            Notice::Saved => NoticeView::Saved,
            Notice::Failed(kind, reason) => NoticeView::Failed(kind, reason@),
        }
    }
}

impl Notice {
    /// Tells where the notice is printed.
    pub fn stream(&self) -> (stream: Stream)
        ensures
            stream == self.deep_view().stream(),
    {
        match self {
            Notice::Failed(_, _) => Stream::Error,
            _ => Stream::Output,
        }
    }

    /// Tells whether the notice is printed under the given verbosity.
    pub fn is_shown(&self, verbosity: Verbosity) -> (shown: bool)
        ensures
            shown == self.deep_view().is_shown(verbosity),
    {
        match verbosity {
            Verbosity::Verbose => true,
            Verbosity::Quiet => match self {
                Notice::Status(_) | Notice::ContentLength(_) | Notice::ContentType(_) => false,
                _ => true,
            },
        }
    }
}

} // verus!
