//! The ways in which one invocation can fail, and the text that each failure
//! is reported with.

use vstd::prelude::*;
use vstd::string::StringExecFns;

verus! {

/// What is wrong with the command's first argument.
#[derive(Clone, Copy, Debug, PartialEq, Eq, Structural)]
pub enum ArgumentError {
    /// The command came without any argument.
    Missing,
    /// The first argument is not a string.
    Invalid,
}

/// Why no media item could be selected.
#[derive(Clone, Debug, PartialEq, Eq)]
pub enum ResolutionError {
    /// The search reported a failure; the text is the search's own.
    SearchFailed(String),
    /// The search returned a playlist without entries.
    EmptyPlaylist,
    /// The search did not finish within its time limit.
    TimedOut,
}

/// A failure of one invocation. None of them ends the process.
#[derive(Clone, Debug, PartialEq, Eq)]
pub enum FlowError {
    /// The required argument is missing or has the wrong type.
    Argument(ArgumentError),
    /// The chat service rejected the first response; the text is the service's.
    Response(String),
    /// The guild's channels could not be listed; the text is the service's.
    ChannelLookup(String),
    /// The media search gave nothing to play.
    Resolution(ResolutionError),
}

/// Mathematical model of a [`ResolutionError`].
pub enum ResolutionErrorView {
    SearchFailed(Seq<char>),
    EmptyPlaylist,
    TimedOut,
}

/// Mathematical model of a [`FlowError`].
pub enum FlowErrorView {
    Argument(ArgumentError),
    Response(Seq<char>),
    ChannelLookup(Seq<char>),
    Resolution(ResolutionErrorView),
}

impl View for ResolutionError {
    type V = ResolutionErrorView;

    open spec fn view(&self) -> ResolutionErrorView {
        match self {
            ResolutionError::SearchFailed(text) => ResolutionErrorView::SearchFailed(text@),
            ResolutionError::EmptyPlaylist => ResolutionErrorView::EmptyPlaylist,
            ResolutionError::TimedOut => ResolutionErrorView::TimedOut,
        }
    }
}

impl View for FlowError {
    type V = FlowErrorView;

    open spec fn view(&self) -> FlowErrorView {
        match self {
            FlowError::Argument(e) => FlowErrorView::Argument(*e),
            FlowError::Response(text) => FlowErrorView::Response(text@),
            FlowError::ChannelLookup(text) => FlowErrorView::ChannelLookup(text@),
            FlowError::Resolution(e) => FlowErrorView::Resolution(e@),
        }
    }
}

impl ArgumentError {
    /// The text that the failure is reported with.
    pub open spec fn message_text(self) -> Seq<char> {
        match self {
            ArgumentError::Missing => "Command requires argument #1"@,
            ArgumentError::Invalid => "Invalid argument #1"@,
        }
    }

    /// The text that the failure is reported with.
    pub fn message(&self) -> (text: String)
        ensures
            text@ == self.message_text(),
    {
        match self {
            ArgumentError::Missing => String::from_str("Command requires argument #1"),
            ArgumentError::Invalid => String::from_str("Invalid argument #1"),
        }
    }
}

impl ResolutionErrorView {
    /// The text that the failure is reported with.
    pub open spec fn message_text(self) -> Seq<char> {
        match self {
            ResolutionErrorView::SearchFailed(text) => text,
            ResolutionErrorView::EmptyPlaylist => "playlist has no entries"@,
            ResolutionErrorView::TimedOut => "search timed out"@,
        }
    }
}

impl ResolutionError {
    /// The text that the failure is reported with.
    pub fn message(&self) -> (text: String)
        ensures
            text@ == self@.message_text(),
    {
        match self {
            ResolutionError::SearchFailed(text) => text.clone(),
            ResolutionError::EmptyPlaylist => String::from_str("playlist has no entries"),
            ResolutionError::TimedOut => String::from_str("search timed out"),
        }
    }
}

impl FlowErrorView {
    /// The text that the failure is reported with.
    pub open spec fn message_text(self) -> Seq<char> {
        match self {
            FlowErrorView::Argument(e) => e.message_text(),
            FlowErrorView::Response(text) => text,
            FlowErrorView::ChannelLookup(text) => text,
            FlowErrorView::Resolution(e) => e.message_text(),
        }
    }
}

impl FlowError {
    /// The text that the failure is reported with.
    pub fn message(&self) -> (text: String)
        ensures
            text@ == self@.message_text(),
    {
        match self {
            FlowError::Argument(e) => e.message(),
            FlowError::Response(text) => text.clone(),
            FlowError::ChannelLookup(text) => text.clone(),
            FlowError::Resolution(e) => e.message(),
        }
    }
}

} // verus!
