//! The one error type of the client, and the two kinds of failure it reports.

use vstd::prelude::*;

verus! {

/// A failed call.
///
/// A transport failure (no response was obtained) has no `code`; it always
/// carries a `message`. An upstream failure (the service answered) carries the
/// status of the answer as its `code`, and the message read from the body of
/// the answer where there was one.
#[derive(Clone, Debug, PartialEq, Eq)]
pub struct UpstreamError {
    pub code: Option<u16>,
    pub message: Option<String>,
}

/// The mathematical value of an [`UpstreamError`].
pub ghost struct UpstreamErrorView {
    pub code: Option<u16>,
    pub message: Option<Seq<char>>,
}

impl View for UpstreamError {
    type V = UpstreamErrorView;

    open spec fn view(&self) -> UpstreamErrorView {
        UpstreamErrorView { code: self.code, message: self.message.deep_view() }
    }
}

impl UpstreamErrorView {
    /// The error of a call that obtained no response.
    pub open spec fn transport(message: Seq<char>) -> UpstreamErrorView {
        UpstreamErrorView { code: None, message: Some(message) }
    }

    /// The error of a call that the service answered with `status`.
    pub open spec fn upstream(status: u16, message: Option<Seq<char>>) -> UpstreamErrorView {
        UpstreamErrorView { code: Some(status), message }
    }

    /// No response was obtained.
    pub open spec fn is_transport_failure(self) -> bool {
        self.code is None
    }

    /// Every error is of one of the two kinds.
    pub open spec fn wf(self) -> bool {
        self.code is None ==> self.message is Some
    }
}

impl UpstreamError {
    /// The error of a call that obtained no response: `message` says why, and
    /// there is no code.
    pub fn default_with_message(message: String) -> (e: UpstreamError)
        ensures
            e@ == UpstreamErrorView::transport(message@),
            e@.is_transport_failure(),
            e@.wf(),
    {
        UpstreamError { code: None, message: Some(message) }
    }

    /// The error of a call that the service answered with `status`, with the
    /// message that the body of the answer gave, if any.
    pub fn upstream(status: u16, message: Option<String>) -> (e: UpstreamError)
        ensures
            e@ == UpstreamErrorView::upstream(status, message.deep_view()),
            !e@.is_transport_failure(),
            e@.wf(),
    {
        UpstreamError { code: Some(status), message }
    }

    /// Whether no response was obtained.
    pub fn is_transport_failure(&self) -> (b: bool)
        ensures
            b == self@.is_transport_failure(),
    {
        self.code.is_none()
    }
}

} // verus!
