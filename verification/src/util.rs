//! From a response to a typed result: the one place where responses are
//! judged, the same for every operation.

use crate::error::{UpstreamError, UpstreamErrorView};
use crate::transport::{Exchange, Reply};
use vstd::prelude::*;

verus! {

/// Whether a status reports success: it lies within 200 to 299.
pub open spec fn is_success(status: u16) -> bool {
    200 <= status <= 299
}

/// Whether a status reports success.
#[verifier::when_used_as_spec(is_success)]
pub fn status_is_success(status: u16) -> (success: bool)
    ensures
        success == is_success(status),
{
    200 <= status && status <= 299
}

/// A result with its error taken by its view.
pub open spec fn result_view<T>(result: Result<T, UpstreamError>) -> Result<T, UpstreamErrorView> {
    match result {
        Ok(value) => Ok(value),
        Err(error) => Err(error@),
    }
}

impl<T> Reply<T> {
    /// What a response amounts to.
    ///
    /// Under a status of success it is the body as the operation expects it,
    /// or, where the body could not be read so, an error that carries the
    /// reader's complaint. Under any other status it is an error whatever the
    /// body reads as, with the message that the body reports, if any. Every
    /// such error carries the status.
    pub open spec fn adapted(self) -> Result<T, UpstreamErrorView> {
        if is_success(self.status) {
            match self.payload {
                Ok(value) => Ok(value),
                Err(complaint) => Err(UpstreamErrorView::upstream(self.status, Some(complaint@))),
            }
        } else {
            Err(UpstreamErrorView::upstream(self.status, self.message.deep_view()))
        }
    }
}

/// What an exchange amounts to: what its response amounts to, or, where there
/// is none, an error without a code that carries the transport's account.
pub open spec fn concluded<T>(exchange: Exchange<T>) -> Result<T, UpstreamErrorView> {
    match exchange {
        Ok(reply) => reply.adapted(),
        Err(account) => Err(UpstreamErrorView::transport(account@)),
    }
}

/// Turns a response into the typed result of the operation.
pub fn deserialize<T>(reply: Reply<T>) -> (result: Result<T, UpstreamError>)
    ensures
        result_view(result) == reply.adapted(),
        result is Ok <==> (is_success(reply.status) && reply.payload is Ok),
        result matches Err(error) ==> error@.wf() && error@.code == Some(reply.status),
{
    if status_is_success(reply.status) {
        match reply.payload {
            Ok(value) => Ok(value),
            Err(complaint) => Err(UpstreamError::upstream(reply.status, Some(complaint))),
        }
    } else {
        Err(UpstreamError::upstream(reply.status, reply.message))
    }
}

/// Turns the end of an exchange into the typed result of the operation.
pub fn conclude<T>(exchange: Exchange<T>) -> (result: Result<T, UpstreamError>)
    ensures
        result_view(result) == concluded(exchange),
        result is Ok <==> (exchange matches Ok(reply) && is_success(reply.status)
            && reply.payload is Ok),
        result matches Err(error) ==> error@.wf(),
{
    match exchange {
        Ok(reply) => deserialize(reply),
        Err(account) => Err(UpstreamError::default_with_message(account)),
    }
}

} // verus!
