//! What holds of the client whatever the service and the transport do.

use crate::error::UpstreamErrorView;
use crate::evaluation::models::{
    BatchEvaluationRequest, BatchEvaluationResponse, BatchEvaluationResponseItem,
    BooleanEvaluationResponse, ErrorEvaluationResponse, EvaluationFlagType,
    EvaluationNamespaceSnapshot, EvaluationNamespaceSnapshotRequest, EvaluationRequest,
    EvaluationResponseType, FlagView, VariantEvaluationResponse,
};
use crate::evaluation::{listed, reference_text, snapshot_endpoint};
use crate::transport::{Exchange, Reply};
use crate::util::{concluded, is_success};
use vstd::prelude::*;

verus! {

/// A boolean evaluation that the service answered with success reaches the
/// caller as it was answered. So where the service answered for the flag of
/// the request, the caller's response names the flag of the request.
pub proof fn boolean_names_the_flag_answered_for(
    request: EvaluationRequest,
    reply: Reply<BooleanEvaluationResponse>,
    answer: BooleanEvaluationResponse,
)
    requires
        is_success(reply.status),
        reply.payload == Ok::<BooleanEvaluationResponse, String>(answer),
        answer.flag_key@ == request.flag_key@,
    ensures
        concluded(Ok::<Reply<BooleanEvaluationResponse>, String>(reply)) == Ok::<
            BooleanEvaluationResponse,
            UpstreamErrorView,
        >(answer),
        concluded(Ok::<Reply<BooleanEvaluationResponse>, String>(reply)) matches Ok(response)
            && response.flag_key@ == request.flag_key@,
{
}

/// A variant evaluation that the service answered with success reaches the
/// caller as it was answered.
pub proof fn variant_is_handed_out_as_answered(
    reply: Reply<VariantEvaluationResponse>,
    answer: VariantEvaluationResponse,
)
    requires
        is_success(reply.status),
        reply.payload == Ok::<VariantEvaluationResponse, String>(answer),
    ensures
        concluded(Ok::<Reply<VariantEvaluationResponse>, String>(reply)) == Ok::<
            VariantEvaluationResponse,
            UpstreamErrorView,
        >(answer),
{
}

/// A batch that the service answered with success reaches the caller with
/// every item of the answer, each at its place, whatever the items are. So
/// where the service answered each request at its place, the caller finds as
/// many items as requests, in the order of the requests.
pub proof fn batch_keeps_every_item_at_its_place(
    batch: BatchEvaluationRequest,
    reply: Reply<BatchEvaluationResponse>,
    answer: BatchEvaluationResponse,
)
    requires
        is_success(reply.status),
        reply.payload == Ok::<BatchEvaluationResponse, String>(answer),
        answer.responses@.len() == batch.requests@.len(),
    ensures
        concluded(Ok::<Reply<BatchEvaluationResponse>, String>(reply)) matches Ok(response) && {
            &&& response.responses@.len() == batch.requests@.len()
            &&& forall|i: int|
                0 <= i < batch.requests@.len() ==> #[trigger] response.responses@[i]
                    == answer.responses@[i]
        },
{
}

/// An item that reports an error does not fail the batch: the call succeeds
/// and the item stands at its place, of type `Error`, with the reason and the
/// keys that the service gave it.
pub proof fn error_item_does_not_fail_the_batch(
    reply: Reply<BatchEvaluationResponse>,
    answer: BatchEvaluationResponse,
    place: int,
    error: ErrorEvaluationResponse,
)
    requires
        is_success(reply.status),
        reply.payload == Ok::<BatchEvaluationResponse, String>(answer),
        0 <= place < answer.responses@.len(),
        answer.responses@[place] == BatchEvaluationResponseItem::ErrorResponse(error),
    ensures
        concluded(Ok::<Reply<BatchEvaluationResponse>, String>(reply)) matches Ok(response) && {
            &&& response.responses@[place] == BatchEvaluationResponseItem::ErrorResponse(error)
            &&& response.responses@[place].spec_response_type() == EvaluationResponseType::Error
        },
{
}

/// Every item can stand on the wire, and is read from there as itself.
pub proof fn every_item_is_read_as_itself(item: BatchEvaluationResponseItem)
    ensures
        item.on_the_wire().read() == Some(item),
        item.on_the_wire().response_type == item.spec_response_type(),
{
}

/// Only the exchange as a whole fails a call: an operation gives an error
/// exactly where there was no response, the status was not one of success, or
/// the body could not be read as what the operation expects.
pub proof fn only_the_exchange_fails_a_call<T>(exchange: Exchange<T>)
    ensures
        concluded(exchange) is Err <==> (exchange is Err || (exchange matches Ok(reply) && (
        !is_success(reply.status) || reply.payload is Err))),
{
}

/// A status that is not one of success gives an error even where the body
/// reads as what the operation expects.
pub proof fn failure_status_is_an_error_whatever_the_body<T>(reply: Reply<T>)
    requires
        !is_success(reply.status),
    ensures
        reply.adapted() == Err::<T, UpstreamErrorView>(
            UpstreamErrorView::upstream(reply.status, reply.message.deep_view()),
        ),
{
}

/// A snapshot that holds a record whose type code names no flag type is
/// listed all the same, and the flag of that record has the default type.
pub proof fn unknown_type_code_lists_as_the_default_type(
    reply: Reply<EvaluationNamespaceSnapshot>,
    snapshot: EvaluationNamespaceSnapshot,
    place: int,
)
    requires
        is_success(reply.status),
        reply.payload == Ok::<EvaluationNamespaceSnapshot, String>(snapshot),
        0 <= place < snapshot.flags@.len(),
        EvaluationFlagType::from_code(snapshot.flags@[place].flag_type) is None,
    ensures
        listed(Ok::<Reply<EvaluationNamespaceSnapshot>, String>(reply)) matches Ok(flags) && {
            &&& flags.len() == snapshot.flags@.len()
            &&& flags[place].key == snapshot.flags@[place].key@
            &&& flags[place].enabled == snapshot.flags@[place].enabled
            &&& flags[place].flag_type == EvaluationFlagType::Variant
        },
{
}

/// A request with an empty reference asks at the same address as one with no
/// reference at all.
pub proof fn empty_reference_is_no_reference(
    base: Seq<char>,
    with_empty: EvaluationNamespaceSnapshotRequest,
    without: EvaluationNamespaceSnapshotRequest,
)
    requires
        with_empty.key@ == without.key@,
        with_empty.reference matches Some(reference) && reference@.len() == 0,
        without.reference is None,
    ensures
        snapshot_endpoint(base, with_empty.key@, reference_text(with_empty)) == snapshot_endpoint(
            base,
            without.key@,
            reference_text(without),
        ),
{
}

/// Where the transport obtained no response and gave an account of it that
/// is not empty, each of the four operations fails with an error that
/// carries that account as its message and has no code.
pub proof fn transport_failure_has_a_message_and_no_code(account: String)
    requires
        account@.len() > 0,
    ensures
        concluded(Err::<Reply<BooleanEvaluationResponse>, String>(account)) == Err::<
            BooleanEvaluationResponse,
            UpstreamErrorView,
        >(UpstreamErrorView::transport(account@)),
        concluded(Err::<Reply<VariantEvaluationResponse>, String>(account)) == Err::<
            VariantEvaluationResponse,
            UpstreamErrorView,
        >(UpstreamErrorView::transport(account@)),
        concluded(Err::<Reply<BatchEvaluationResponse>, String>(account)) == Err::<
            BatchEvaluationResponse,
            UpstreamErrorView,
        >(UpstreamErrorView::transport(account@)),
        listed(Err::<Reply<EvaluationNamespaceSnapshot>, String>(account)) == Err::<
            Seq<FlagView>,
            UpstreamErrorView,
        >(UpstreamErrorView::transport(account@)),
        UpstreamErrorView::transport(account@).code is None,
        UpstreamErrorView::transport(account@).message matches Some(message) && message.len() > 0,
{
}

} // verus!
