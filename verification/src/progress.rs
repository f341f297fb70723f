//! The progress indicator of a download: what is to be drawn, and how far it
//! has advanced.

use vstd::prelude::*;
use vstd::string::StringExecFns;

use crate::verbosity::Verbosity;

verus! {

/// What the indicator is drawn as.
#[derive(Clone, Copy, Debug, PartialEq, Eq, Structural)]
pub enum IndicatorKind {
    /// Nothing is drawn.
    Hidden,
    /// A bar that fills up towards the given number of bytes.
    Bar(u64),
    /// A spinner, for a body of unknown length.
    Spinner,
}

/// The look that is set on the indicator.
#[derive(Clone, Copy, Debug, PartialEq, Eq, Structural)]
pub enum IndicatorStyle {
    /// The default look of a bar.
    Bar,
    /// The default look of a spinner.
    Spinner,
}

/// The state of the progress indicator.
#[derive(Clone, Debug, PartialEq, Eq)]
pub struct ProgressIndicator {
    /// What is drawn.
    pub kind: IndicatorKind,
    /// The look of what is drawn.
    pub style: IndicatorStyle,
    /// The text shown beside the indicator.
    pub message: String,
    /// The number of bytes the indicator has been advanced by.
    pub position: u64,
    /// Whether the indicator has been marked complete.
    pub finished: bool,
}

/// The indicator as contracts see it.
pub struct IndicatorView {
    /// What is drawn.
    pub kind: IndicatorKind,
    /// The look of what is drawn.
    pub style: IndicatorStyle,
    /// The text shown beside the indicator.
    pub message: Seq<char>,
    /// The number of bytes the indicator has been advanced by.
    pub position: nat,
    /// Whether the indicator has been marked complete.
    pub finished: bool,
}

impl IndicatorView {
    /// The total the indicator counts towards: that of a bar; a hidden
    /// indicator and a spinner have none.
    pub open spec fn length(self) -> Option<u64> {
        match self.kind {
            IndicatorKind::Bar(total) => Some(total),
            _ => None,
        }
    }

    /// The indicator after it has been advanced by `delta` bytes.
    pub open spec fn advanced(self, delta: nat) -> IndicatorView {
        IndicatorView { position: self.position + delta, ..self }
    }

    /// The indicator after it has been marked complete.
    pub open spec fn completed(self) -> IndicatorView {
        IndicatorView { finished: true, ..self }
    }
}

impl View for ProgressIndicator {
    type V = IndicatorView;

    open spec fn view(&self) -> IndicatorView {
        IndicatorView {
            kind: self.kind,
            style: self.style,
            message: self.message@,
            position: self.position as nat,
            finished: self.finished,
        }
    }
}

/// The indicator a download starts with: its kind from the verbosity and the
/// declared length, its look from the declared length, the given message, at
/// position zero and not finished.
pub open spec fn spec_create_progress_bar(
    verbosity: Verbosity,
    msg: Seq<char>,
    length: Option<u64>,
) -> IndicatorView {
    IndicatorView {
        kind: spec_indicator_kind(verbosity, length),
        style: spec_indicator_style(length),
        message: msg,
        position: 0,
        finished: false,
    }
}

/// The kind of indicator for a verbosity and a declared length: hidden when
/// quiet; otherwise a bar when the length is known and a spinner when not.
pub open spec fn spec_indicator_kind(verbosity: Verbosity, length: Option<u64>) -> IndicatorKind {
    match verbosity {
        Verbosity::Quiet => IndicatorKind::Hidden,
        Verbosity::Verbose => match length {
            Some(total) => IndicatorKind::Bar(total),
            None => IndicatorKind::Spinner,
        },
    }
}

/// The look of the indicator for a declared length: that of a bar when the
/// length is known, that of a spinner when not, whatever the verbosity.
pub open spec fn spec_indicator_style(length: Option<u64>) -> IndicatorStyle {
    match length {
        Some(_) => IndicatorStyle::Bar,
        None => IndicatorStyle::Spinner,
    }
}

/// Sets up the indicator for a download.
pub fn create_progress_bar(verbosity: Verbosity, msg: &str, length: Option<u64>) -> (bar:
    ProgressIndicator)
    ensures
        bar@ == spec_create_progress_bar(verbosity, msg@, length),
{
    let kind = match verbosity {
        Verbosity::Quiet => IndicatorKind::Hidden,
        Verbosity::Verbose => match length {
            Some(total) => IndicatorKind::Bar(total),
            None => IndicatorKind::Spinner,
        },
    };
    let style = match length {
        Some(_) => IndicatorStyle::Bar,
        None => IndicatorStyle::Spinner,
    };
    ProgressIndicator { kind, style, message: String::from_str(msg), position: 0, finished: false }
}

impl ProgressIndicator {
    /// The total the indicator counts towards, when it has one.
    pub fn length(&self) -> (total: Option<u64>)
        ensures
            total == self@.length(),
    {
        match self.kind {
            IndicatorKind::Bar(total) => Some(total),
            _ => None,
        }
    }

    /// Advances the position by `delta` bytes and changes nothing else.
    pub fn inc(&mut self, delta: u64)
        requires
            old(self).position + delta <= u64::MAX,
        ensures
            final(self)@ == old(self)@.advanced(delta as nat),
    {
        self.position = self.position + delta;
    }

    /// Marks the indicator complete. The position stays where it is, whether
    /// or not it has reached the total.
    pub fn finish(&mut self)
        ensures
            final(self)@ == old(self)@.completed(),
    {
        self.finished = true;
    }
}

} // verus!
