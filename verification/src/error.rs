//! The ways an invocation can fail.

use vstd::prelude::*;
use vstd::string::*;
use crate::text::{decimal, render_decimal};

verus! {

/// Which of the two paths of a transfer is meant.
#[derive(Clone, Copy, Debug, PartialEq, Eq, Structural)]
pub enum PathKind {
    Local,
    Remote,
}

/// Every failure is fatal: nothing is retried and nothing is aggregated.
#[derive(Clone, Debug, PartialEq, Eq)]
pub enum Error {
    /// None or more than one mode was selected on the command line.
    Usage,
    /// The configuration file could be opened but not understood.
    ConfigParse(String),
    /// The selected mode needs a path that was not supplied.
    MissingPath(PathKind),
    /// A local file could not be opened, read, created or written.
    LocalFile(String),
    /// The storage client rejected the bucket name.
    InvalidBucket(String),
    /// The storage client rejected the region name.
    InvalidRegion(String),
    /// The storage operation completed with a status code other than 200.
    RemoteStatus(u16),
    /// Any lower-level failure reported by the storage client, verbatim.
    Transport(String),
    /// The mode word names no operation.
    InvalidMode,
}

/// The mathematical content of an [`Error`].
pub enum ErrorView {
    Usage,
    ConfigParse(Seq<char>),
    MissingPath(PathKind),
    LocalFile(Seq<char>),
    InvalidBucket(Seq<char>),
    InvalidRegion(Seq<char>),
    RemoteStatus(u16),
    Transport(Seq<char>),
    InvalidMode,
}

impl View for Error {
    type V = ErrorView;

    open spec fn view(&self) -> ErrorView {
        match *self {
            Error::Usage => ErrorView::Usage,
            Error::ConfigParse(detail) => ErrorView::ConfigParse(detail@),
            Error::MissingPath(kind) => ErrorView::MissingPath(kind),
            Error::LocalFile(detail) => ErrorView::LocalFile(detail@),
            Error::InvalidBucket(detail) => ErrorView::InvalidBucket(detail@),
            Error::InvalidRegion(detail) => ErrorView::InvalidRegion(detail@),
            Error::RemoteStatus(code) => ErrorView::RemoteStatus(code),
            Error::Transport(detail) => ErrorView::Transport(detail@),
            Error::InvalidMode => ErrorView::InvalidMode,
        }
    }
}

/// The view of an outcome that carries no value on success.
pub open spec fn outcome_view(outcome: Result<(), Error>) -> Result<(), ErrorView> {
    match outcome {
        Ok(()) => Ok(()),
        Err(e) => Err(e@),
    }
}

/// The text shown to the user for an error.
pub open spec fn message_of(e: ErrorView) -> Seq<char> {
    match e {
        ErrorView::Usage => "Exactly one mode must be selected"@,
        ErrorView::ConfigParse(detail) => detail,
        ErrorView::MissingPath(PathKind::Local) => "No local path specified"@,
        ErrorView::MissingPath(PathKind::Remote) => "No remote path specified"@,
        ErrorView::LocalFile(detail) => detail,
        ErrorView::InvalidBucket(detail) => detail,
        ErrorView::InvalidRegion(detail) => detail,
        ErrorView::RemoteStatus(code) => "Remote file error. result code is "@ + decimal(
            code as nat,
        ) + "."@,
        ErrorView::Transport(detail) => detail,
        ErrorView::InvalidMode => "Invalid mode"@,
    }
}

impl Error {
    /// The human-readable message of this error. A status error names the
    /// offending code in decimal; errors that come from outside keep the
    /// text they arrived with.
    pub fn message(&self) -> (text: String)
        ensures
            text@ == message_of(self@),
    {
        match self {
            Error::Usage => String::from_str("Exactly one mode must be selected"),
            Error::ConfigParse(detail) => detail.clone(),
            Error::MissingPath(PathKind::Local) => String::from_str("No local path specified"),
            Error::MissingPath(PathKind::Remote) => String::from_str("No remote path specified"),
            Error::LocalFile(detail) => detail.clone(),
            Error::InvalidBucket(detail) => detail.clone(),
            Error::InvalidRegion(detail) => detail.clone(),
            Error::RemoteStatus(code) => {
                let mut text = String::from_str("Remote file error. result code is ");
                let numeral = render_decimal(*code);
                text.append(numeral.as_str());
                text.append(".");
                text
            },
            Error::Transport(detail) => detail.clone(),
            Error::InvalidMode => String::from_str("Invalid mode"),
        }
    }
}

} // verus!
