//! The tri-state outcome of a probe and the faults it can report.

use vstd::prelude::*;
use vstd::string::StringExecFns;
use crate::context::IoFailure;

verus! {

/// A genuine fault raised while detecting a piece of host information.
#[derive(Debug, Clone, PartialEq, Eq)]
pub enum Error {
    /// The target platform has no detection strategy.
    UnsupportedPlatform,
    /// Probe-specific logic failed.
    DetectionFailed(String),
    /// A system-access operation failed.
    Io(String),
    /// Data was not in the expected format.
    Parse(String),
}

/// The mathematical value of an [`Error`].
pub enum ErrorView {
    UnsupportedPlatform,
    DetectionFailed(Seq<char>),
    Io(Seq<char>),
    Parse(Seq<char>),
}

impl View for Error {
    type V = ErrorView;

    open spec fn view(&self) -> ErrorView {
        match self {
            Error::UnsupportedPlatform => ErrorView::UnsupportedPlatform,
            Error::DetectionFailed(m) => ErrorView::DetectionFailed(m@),
            Error::Io(m) => ErrorView::Io(m@),
            Error::Parse(m) => ErrorView::Parse(m@),
        }
    }
}

/// Outcome of one detection: a value, a non-error absence, or a fault.
#[derive(Debug, Clone, PartialEq, Eq)]
pub enum DetectionResult<T> {
    /// The information was detected.
    Detected(T),
    /// The information does not exist on this host; not a fault.
    Unavailable,
    /// Detection raised a fault.
    Error(Error),
}

/// The mathematical value of a [`DetectionResult`] whose payload has the
/// value `V`.
pub enum OutcomeView<V> {
    Detected(V),
    Unavailable,
    Error(ErrorView),
}

impl<V> OutcomeView<V> {
    /// The outcome with `f` applied to what was detected.
    pub open spec fn lift<W>(self, f: spec_fn(V) -> W) -> OutcomeView<W> {
        match self {
            OutcomeView::Detected(v) => OutcomeView::Detected(f(v)),
            OutcomeView::Unavailable => OutcomeView::Unavailable,
            OutcomeView::Error(e) => OutcomeView::Error(e),
        }
    }
}

impl<T: View> View for DetectionResult<T> {
    type V = OutcomeView<T::V>;

    open spec fn view(&self) -> OutcomeView<T::V> {
        match self {
            DetectionResult::Detected(v) => OutcomeView::Detected(v@),
            DetectionResult::Unavailable => OutcomeView::Unavailable,
            DetectionResult::Error(e) => OutcomeView::Error(e@),
        }
    }
}

impl Error {
    /// The text that describes the fault.
    pub open spec fn message_of(e: ErrorView) -> Seq<char> {
        match e {
            ErrorView::UnsupportedPlatform => "Platform not supported"@,
            ErrorView::DetectionFailed(m) => "Detection failed: "@ + m,
            ErrorView::Io(m) => "I/O error: "@ + m,
            ErrorView::Parse(m) => "Parse error: "@ + m,
        }
    }

    /// The text that describes the fault.
    pub fn to_string(&self) -> (s: String)
        ensures
            s@ == Error::message_of(self@),
    {
        match self {
            Error::UnsupportedPlatform => "Platform not supported".to_owned(),
            Error::DetectionFailed(m) => "Detection failed: ".to_owned().concat(m.as_str()),
            Error::Io(m) => "I/O error: ".to_owned().concat(m.as_str()),
            Error::Parse(m) => "Parse error: ".to_owned().concat(m.as_str()),
        }
    }

    /// The fault that a failed system-access operation becomes.
    pub fn from_io(failure: IoFailure) -> (e: Error)
        ensures
            e@ == ErrorView::Io(failure.message@),
    {
        Error::Io(failure.message)
    }
}

impl<T> DetectionResult<T> {
    /// Whether a value was detected.
    pub fn is_detected(&self) -> (b: bool)
        ensures
            b == (self is Detected),
    {
        match self {
            DetectionResult::Detected(_) => true,
            _ => false,
        }
    }

    /// Whether the information is absent without a fault.
    pub fn is_unavailable(&self) -> (b: bool)
        ensures
            b == (self is Unavailable),
    {
        match self {
            DetectionResult::Unavailable => true,
            _ => false,
        }
    }

    /// Whether detection raised a fault.
    pub fn is_error(&self) -> (b: bool)
        ensures
            b == (self is Error),
    {
        match self {
            DetectionResult::Error(_) => true,
            _ => false,
        }
    }

    /// The detected value, if any; absence and faults both give `None`.
    pub fn ok(self) -> (out: Option<T>)
        ensures
            out == (match self {
                DetectionResult::Detected(v) => Some(v),
                _ => None,
            }),
    {
        match self {
            DetectionResult::Detected(val) => Some(val),
            _ => None,
        }
    }

    /// Applies `f` to a detected value and carries the other two arms over
    /// unchanged.
    pub fn map<U, F: FnOnce(T) -> U>(self, f: F) -> (out: DetectionResult<U>)
        requires
            self matches DetectionResult::Detected(v) ==> f.requires((v,)),
        ensures
            match self {
                DetectionResult::Detected(v) => out matches DetectionResult::Detected(u)
                    && f.ensures((v,), u),
                DetectionResult::Unavailable => out is Unavailable,
                DetectionResult::Error(e) => out == DetectionResult::<U>::Error(e),
            },
    {
        match self {
            DetectionResult::Detected(val) => DetectionResult::Detected(f(val)),
            DetectionResult::Unavailable => DetectionResult::Unavailable,
            DetectionResult::Error(err) => DetectionResult::Error(err),
        }
    }
}

} // verus!
