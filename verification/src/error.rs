//! The failures that reach subscribers, and the result type that carries
//! either a classified body or one of them.

use crate::body::{Body, BodyView};
use std::sync::Arc;
use vstd::prelude::*;
use vstd::string::StringExecFns;

verus! {

/// Everything that can go wrong between the clipboard and a subscriber.
#[derive(Clone, Debug, PartialEq, Eq)]
pub enum ClipboardError {
    /// The platform monitor could not be set up; no driver was created.
    InitializationError(String),
    /// The change notification itself broke; the observer has stopped.
    MonitorFailed(String),
    /// The start-up handshake with the background context was lost.
    TryRecvError(String),
    /// One classification attempt could not read the clipboard.
    ReadError(String),
    /// The clipboard holds nothing that the classifier recognises.
    UnknownDataType,
}

/// The mathematical value of a [`ClipboardError`].
pub enum ErrorView {
    InitializationError(Seq<char>),
    MonitorFailed(Seq<char>),
    TryRecvError(Seq<char>),
    ReadError(Seq<char>),
    UnknownDataType,
}

impl View for ClipboardError {
    type V = ErrorView;

    open spec fn view(&self) -> ErrorView {
        match self {
            ClipboardError::InitializationError(detail) => ErrorView::InitializationError(detail@),
            ClipboardError::MonitorFailed(detail) => ErrorView::MonitorFailed(detail@),
            ClipboardError::TryRecvError(detail) => ErrorView::TryRecvError(detail@),
            ClipboardError::ReadError(detail) => ErrorView::ReadError(detail@),
            ClipboardError::UnknownDataType => ErrorView::UnknownDataType,
        }
    }
}

/// What one clipboard change yields: a shared, immutable body, or a failure.
pub type ClipboardResult = Result<Arc<Body>, ClipboardError>;

/// The mathematical value of a [`ClipboardResult`].
pub open spec fn result_view(result: ClipboardResult) -> Result<BodyView, ErrorView> {
    match result {
        Ok(body) => Ok((*body)@),
        Err(error) => Err(error@),
    }
}

/// The text shown for an error.
pub open spec fn error_text(error: ErrorView) -> Seq<char> {
    match error {
        ErrorView::InitializationError(detail) => "Failed to start clipboard monitor: "@ + detail,
        ErrorView::MonitorFailed(detail) => "Failed to monitor the clipboard: "@ + detail,
        ErrorView::TryRecvError(detail) => "Failed to receive data from channel: "@ + detail,
        ErrorView::ReadError(detail) => "Failed to read the clipboard: "@ + detail,
        ErrorView::UnknownDataType => "Failed to read the clipboard: unknown data type"@,
    }
}

impl ClipboardError {
    /// The message of this error, for printing.
    pub fn to_string(&self) -> (text: String)
        ensures
            text@ == error_text(self@),
    {
        match self {
            ClipboardError::InitializationError(detail) => {
                "Failed to start clipboard monitor: ".to_owned().concat(detail.as_str())
            },
            ClipboardError::MonitorFailed(detail) => {
                "Failed to monitor the clipboard: ".to_owned().concat(detail.as_str())
            },
            ClipboardError::TryRecvError(detail) => {
                "Failed to receive data from channel: ".to_owned().concat(detail.as_str())
            },
            ClipboardError::ReadError(detail) => {
                "Failed to read the clipboard: ".to_owned().concat(detail.as_str())
            },
            ClipboardError::UnknownDataType => {
                "Failed to read the clipboard: unknown data type".to_owned()
            },
        }
    }

    /// An independent copy with the same value.
    pub fn duplicate(&self) -> (copy: Self)
        ensures
            copy@ == self@,
    {
        match self {
            ClipboardError::InitializationError(detail) => {
                ClipboardError::InitializationError(detail.clone())
            },
            ClipboardError::MonitorFailed(detail) => ClipboardError::MonitorFailed(detail.clone()),
            ClipboardError::TryRecvError(detail) => ClipboardError::TryRecvError(detail.clone()),
            ClipboardError::ReadError(detail) => ClipboardError::ReadError(detail.clone()),
            ClipboardError::UnknownDataType => ClipboardError::UnknownDataType,
        }
    }
}

} // verus!
