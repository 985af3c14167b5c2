//! The closed set of failures that the supervisor and the client report.

use vstd::prelude::*;
use crate::text::{prefixed, signed_decimal, signed_decimal_text};

verus! {

/// A failure of the worker or of the channel to it.
///
/// The variants that stand for a failure of the operating system or of the
/// encoder hold that failure's text.
#[derive(Debug)]
pub enum SidecarError {
    /// The worker's executable does not exist at the resolved path.
    NotFound(String),
    /// The operating system could not launch the worker.
    SpawnError(String),
    /// Reading from or writing to the worker's pipes failed.
    IoError(String),
    /// A message could not be encoded or decoded.
    JsonError(String),
    /// No response arrived.
    Timeout(String),
    /// The worker ended with this exit code.
    ProcessExit(i32),
    /// A response lacked what the caller needed, or the worker was not started.
    InvalidResponse(String),
    /// The worker itself rejected the command.
    SidecarError(String),
}

/// A failure, with each text as the sequence of its characters.
pub enum SidecarErrorView {
    NotFound(Seq<char>),
    SpawnError(Seq<char>),
    IoError(Seq<char>),
    JsonError(Seq<char>),
    Timeout(Seq<char>),
    ProcessExit(i32),
    InvalidResponse(Seq<char>),
    SidecarError(Seq<char>),
}

impl View for SidecarError {
    type V = SidecarErrorView;

    open spec fn view(&self) -> SidecarErrorView {
        match *self {
            SidecarError::NotFound(s) => SidecarErrorView::NotFound(s@),
            SidecarError::SpawnError(s) => SidecarErrorView::SpawnError(s@),
            SidecarError::IoError(s) => SidecarErrorView::IoError(s@),
            SidecarError::JsonError(s) => SidecarErrorView::JsonError(s@),
            SidecarError::Timeout(s) => SidecarErrorView::Timeout(s@),
            SidecarError::ProcessExit(code) => SidecarErrorView::ProcessExit(code),
            SidecarError::InvalidResponse(s) => SidecarErrorView::InvalidResponse(s@),
            SidecarError::SidecarError(s) => SidecarErrorView::SidecarError(s@),
        }
    }
}

impl SidecarErrorView {
    /// Whether the failure is one of delivery: of launching, of the pipes, or of waiting.
    pub open spec fn is_transport(self) -> bool {
        self is SpawnError || self is IoError || self is Timeout
    }

    /// Whether the worker itself reported the failure.
    pub open spec fn is_application(self) -> bool {
        self is SidecarError
    }

    /// The failure in words.
    pub open spec fn message(self) -> Seq<char> {
        match self {
            SidecarErrorView::NotFound(s) => "Sidecar executable not found: "@ + s,
            SidecarErrorView::SpawnError(s) => "Failed to spawn sidecar process: "@ + s,
            SidecarErrorView::IoError(s) => "IO error: "@ + s,
            SidecarErrorView::JsonError(s) => "JSON error: "@ + s,
            SidecarErrorView::Timeout(s) => "Timeout waiting for response: "@ + s,
            SidecarErrorView::ProcessExit(code) => "Sidecar process exited with code: "@
                + signed_decimal(code as int),
            SidecarErrorView::InvalidResponse(s) => "Invalid response: "@ + s,
            SidecarErrorView::SidecarError(s) => "Sidecar error: "@ + s,
        }
    }
}

impl SidecarError {
    /// Whether the failure is one of delivery: of launching, of the pipes, or of waiting.
    pub fn is_transport(&self) -> (b: bool)
        ensures
            b == self@.is_transport(),
    {
        match self {
            SidecarError::SpawnError(_) => true,
            SidecarError::IoError(_) => true,
            SidecarError::Timeout(_) => true,
            _ => false,
        }
    }

    /// Whether the worker itself reported the failure.
    pub fn is_application(&self) -> (b: bool)
        ensures
            b == self@.is_application(),
    {
        match self {
            SidecarError::SidecarError(_) => true,
            _ => false,
        }
    }

    /// The failure in words.
    pub fn to_string(&self) -> (text: String)
        ensures
            text@ == self@.message(),
    {
        match self {
            SidecarError::NotFound(s) => prefixed("Sidecar executable not found: ", s.as_str()),
            SidecarError::SpawnError(s) => prefixed("Failed to spawn sidecar process: ", s.as_str()),
            SidecarError::IoError(s) => prefixed("IO error: ", s.as_str()),
            SidecarError::JsonError(s) => prefixed("JSON error: ", s.as_str()),
            SidecarError::Timeout(s) => prefixed("Timeout waiting for response: ", s.as_str()),
            SidecarError::ProcessExit(code) => {
                let digits = signed_decimal_text(*code as i64);
                prefixed("Sidecar process exited with code: ", digits.as_str())
            },
            SidecarError::InvalidResponse(s) => prefixed("Invalid response: ", s.as_str()),
            SidecarError::SidecarError(s) => prefixed("Sidecar error: ", s.as_str()),
        }
    }
}

impl Clone for SidecarError {
    fn clone(&self) -> (copy: Self)
        ensures
            copy@ == self@,
    {
        match self {
            SidecarError::NotFound(s) => SidecarError::NotFound(s.clone()),
            SidecarError::SpawnError(s) => SidecarError::SpawnError(s.clone()),
            SidecarError::IoError(s) => SidecarError::IoError(s.clone()),
            SidecarError::JsonError(s) => SidecarError::JsonError(s.clone()),
            SidecarError::Timeout(s) => SidecarError::Timeout(s.clone()),
            SidecarError::ProcessExit(code) => SidecarError::ProcessExit(*code),
            SidecarError::InvalidResponse(s) => SidecarError::InvalidResponse(s.clone()),
            SidecarError::SidecarError(s) => SidecarError::SidecarError(s.clone()),
        }
    }
}

/// No failure is both one of delivery and one that the worker reported.
pub proof fn lemma_classes_disjoint(e: SidecarErrorView)
    ensures
        !(e.is_transport() && e.is_application()),
{
}

} // verus!
