//! What the client asks the transport to do, and what the transport hands
//! back. The transport itself is not part of the library.

use crate::evaluation::models::{BatchEvaluationRequest, EvaluationRequest};
use vstd::prelude::*;

verus! {

/// How a request is put to the service.
#[derive(Clone, Copy, Debug, PartialEq, Eq, Structural)]
pub enum Method {
    Get,
    Post,
}

/// What a request carries in its body.
#[derive(Clone, Copy, Debug, PartialEq)]
pub enum Payload<'a> {
    Empty,
    Evaluation(&'a EvaluationRequest),
    Batch(&'a BatchEvaluationRequest),
}

/// One request to put on the wire.
#[derive(Clone, Debug, PartialEq)]
pub struct Call<'a> {
    pub method: Method,
    pub endpoint: String,
    pub payload: Payload<'a>,
}

/// A response of the service: its status, and its body in the two ways in
/// which a body is read.
#[derive(Debug, PartialEq, Eq)]
pub struct Reply<T> {
    pub status: u16,
    /// The body read as what the operation expects, or the reader's complaint.
    pub payload: Result<T, String>,
    /// The message of the body read as a report of failure, if that gives one.
    pub message: Option<String>,
}

/// How an exchange with the service ended: with a response, or with the
/// transport's account of why there is none.
pub type Exchange<T> = Result<Reply<T>, String>;

} // verus!
