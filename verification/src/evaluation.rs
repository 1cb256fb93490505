//! The evaluation client: which request each operation puts on the wire, and
//! what the caller gets for whatever came back.

pub mod models;

use crate::base_url::BaseUrl;
use crate::error::{UpstreamError, UpstreamErrorView};
use crate::evaluation::models::{
    BatchEvaluationRequest, BatchEvaluationResponse, BooleanEvaluationResponse, EvaluationFlag,
    EvaluationNamespaceSnapshot, EvaluationNamespaceSnapshotRequest, EvaluationRequest, Flag,
    FlagView, VariantEvaluationResponse,
};
use crate::transport::{Call, Exchange, Method, Payload};
use crate::util::{conclude, concluded, result_view};
use vstd::prelude::*;

verus! {

/// The address of `path` under `base`: the two with exactly one `/` between
/// them, which `base` brings along where it ends in one.
pub open spec fn under(base: Seq<char>, path: Seq<char>) -> Seq<char> {
    if base.len() > 0 && base.last() == '/' {
        base + path
    } else {
        base + seq!['/'] + path
    }
}

/// Where boolean evaluations are sent.
pub open spec fn boolean_endpoint(base: Seq<char>) -> Seq<char> {
    under(base, "evaluate/v1/boolean"@)
}

/// Where variant evaluations are sent.
pub open spec fn variant_endpoint(base: Seq<char>) -> Seq<char> {
    under(base, "evaluate/v1/variant"@)
}

/// Where batches of evaluations are sent.
pub open spec fn batch_endpoint(base: Seq<char>) -> Seq<char> {
    under(base, "evaluate/v1/batch"@)
}

/// What follows the namespace in the address of a snapshot: nothing for an
/// empty reference, else the reference as a query parameter.
pub open spec fn reference_query(reference: Seq<char>) -> Seq<char> {
    if reference.len() == 0 {
        Seq::<char>::empty()
    } else {
        "?reference="@ + reference
    }
}

/// Where the snapshot of `namespace` is fetched, at `reference`.
pub open spec fn snapshot_endpoint(
    base: Seq<char>,
    namespace: Seq<char>,
    reference: Seq<char>,
) -> Seq<char> {
    under(base, "internal/v1/evaluation/snapshot/namespace/"@ + namespace + reference_query(reference))
}

/// The reference that a snapshot request asks for, as text: empty where it
/// names none.
pub open spec fn reference_text(request: EvaluationNamespaceSnapshotRequest) -> Seq<char> {
    match request.reference {
        Some(reference) => reference@,
        None => Seq::<char>::empty(),
    }
}

/// The flags that the client hands out for a snapshot: one for each record,
/// in the order of the records.
pub open spec fn exported_flags(snapshot: EvaluationNamespaceSnapshot) -> Seq<FlagView> {
    snapshot.flags@.map_values(|record: EvaluationFlag| record.exported())
}

/// What an exchange for a snapshot amounts to.
pub open spec fn listed(exchange: Exchange<EvaluationNamespaceSnapshot>) -> Result<
    Seq<FlagView>,
    UpstreamErrorView,
> {
    match concluded(exchange) {
        Ok(snapshot) => Ok(exported_flags(snapshot)),
        Err(error) => Err(error),
    }
}

/// Puts `path` under `base`.
fn join(base: &str, path: &str) -> (address: String)
    ensures
        address@ == under(base@, path@),
{
    let length: usize = base.unicode_len();
    let mut address = base.to_owned();
    if length == 0 || base.get_char(length - 1) != '/' {
        proof {
            reveal_strlit("/");
        }
        address.append("/");
    }
    address.append(path);
    address
}

/// The evaluation client of one service.
#[derive(Clone, Debug, PartialEq, Eq)]
pub struct Evaluation {
    url: BaseUrl,
}

impl Evaluation {
    /// The serialized address of the service.
    pub closed spec fn base(&self) -> Seq<char> {
        self.url@
    }

    /// A client for the service at `url`.
    pub fn new(url: BaseUrl) -> (client: Evaluation)
        ensures
            client.base() == url@,
    {
        Evaluation { url }
    }

    /// The address of the service.
    pub fn base_url(&self) -> (url: &BaseUrl)
        ensures
            url@ == self.base(),
    {
        &self.url
    }

    /// The request that evaluates a boolean flag: `request` itself, posted to
    /// the boolean endpoint.
    pub fn boolean_call<'a>(&self, request: &'a EvaluationRequest) -> (call: Call<'a>)
        ensures
            call.method == Method::Post,
            call.endpoint@ == boolean_endpoint(self.base()),
            call.payload == Payload::Evaluation(request),
    {
        Call {
            method: Method::Post,
            endpoint: join(self.url.as_str(), "evaluate/v1/boolean"),
            payload: Payload::Evaluation(request),
        }
    }

    /// The request that evaluates a variant flag: `request` itself, posted to
    /// the variant endpoint.
    pub fn variant_call<'a>(&self, request: &'a EvaluationRequest) -> (call: Call<'a>)
        ensures
            call.method == Method::Post,
            call.endpoint@ == variant_endpoint(self.base()),
            call.payload == Payload::Evaluation(request),
    {
        Call {
            method: Method::Post,
            endpoint: join(self.url.as_str(), "evaluate/v1/variant"),
            payload: Payload::Evaluation(request),
        }
    }

    /// The request that evaluates a batch: `batch` itself, with its requests
    /// in their order, posted to the batch endpoint.
    pub fn batch_call<'a>(&self, batch: &'a BatchEvaluationRequest) -> (call: Call<'a>)
        ensures
            call.method == Method::Post,
            call.endpoint@ == batch_endpoint(self.base()),
            call.payload == Payload::Batch(batch),
    {
        Call {
            method: Method::Post,
            endpoint: join(self.url.as_str(), "evaluate/v1/batch"),
            payload: Payload::Batch(batch),
        }
    }

    /// The request that fetches the snapshot of a namespace: a `Get` without
    /// a body. A reference that is absent and one that is empty give the same
    /// address.
    pub fn list_flags_call(&self, request: &EvaluationNamespaceSnapshotRequest) -> (call: Call<
        'static,
    >)
        ensures
            call.method == Method::Get,
            call.endpoint@ == snapshot_endpoint(
                self.base(),
                request.key@,
                reference_text(*request),
            ),
            call.payload == Payload::Empty,
    {
        let reference = match &request.reference {
            Some(reference) => reference.clone(),
            None => String::new(),
        };
        Call {
            method: Method::Get,
            endpoint: self.url(request.key.as_str(), reference),
            payload: Payload::Empty,
        }
    }

    /// The address of the snapshot of `namespace`. The namespace goes into
    /// the path as it is; a `reference` that is not empty follows as a query
    /// parameter, an empty one leaves no trace.
    pub fn url(&self, namespace: &str, reference: String) -> (endpoint: String)
        ensures
            endpoint@ == snapshot_endpoint(self.base(), namespace@, reference@),
    {
        let mut path = "internal/v1/evaluation/snapshot/namespace/".to_owned();
        path.append(namespace);
        if !reference.as_str().is_empty() {
            path.append("?reference=");
            path.append(reference.as_str());
        }
        join(self.url.as_str(), path.as_str())
    }

    /// The result of a boolean evaluation, from how the exchange ended.
    pub fn boolean(&self, exchange: Exchange<BooleanEvaluationResponse>) -> (result: Result<
        BooleanEvaluationResponse,
        UpstreamError,
    >)
        ensures
            result_view(result) == concluded(exchange),
    {
        conclude(exchange)
    }

    /// The result of a variant evaluation, from how the exchange ended.
    pub fn variant(&self, exchange: Exchange<VariantEvaluationResponse>) -> (result: Result<
        VariantEvaluationResponse,
        UpstreamError,
    >)
        ensures
            result_view(result) == concluded(exchange),
    {
        conclude(exchange)
    }

    /// The result of a batch, from how the exchange ended. Whether single
    /// items report an error plays no part in it.
    pub fn batch(&self, exchange: Exchange<BatchEvaluationResponse>) -> (result: Result<
        BatchEvaluationResponse,
        UpstreamError,
    >)
        ensures
            result_view(result) == concluded(exchange),
    {
        conclude(exchange)
    }

    /// The snapshot of a namespace, from how the exchange ended.
    pub fn inner_list_flags(&self, exchange: Exchange<EvaluationNamespaceSnapshot>) -> (result:
        Result<EvaluationNamespaceSnapshot, UpstreamError>)
        ensures
            result_view(result) == concluded(exchange),
    {
        conclude(exchange)
    }

    /// The flags of a namespace, from how the exchange ended: one flag for
    /// each record of the snapshot, in the order of the records. A record
    /// whose type code names no flag type gives a flag of the default type.
    pub fn list_flags(&self, exchange: Exchange<EvaluationNamespaceSnapshot>) -> (result: Result<
        Vec<Flag>,
        UpstreamError,
    >)
        ensures
            result matches Ok(flags) ==> listed(exchange) == Ok::<Seq<FlagView>, UpstreamErrorView>(
                flags@.map_values(|flag: Flag| flag@),
            ),
            result matches Err(error) ==> listed(exchange) == Err::<
                Seq<FlagView>,
                UpstreamErrorView,
            >(error@),
    {
        let snapshot = match self.inner_list_flags(exchange) {
            Ok(snapshot) => snapshot,
            Err(error) => {
                return Err(error);
            },
        };
        let ghost records = snapshot.flags@;
        let mut flags: Vec<Flag> = Vec::new();
        for record in it: snapshot.flags.into_iter()
            invariant
                it.seq() == records,
                flags@.len() == it.index(),
                forall|i: int| 0 <= i < it.index() ==> (#[trigger] flags@[i])@ == records[i].exported(),
        {
            flags.push(Flag::from_record(record));
        }
        assert(flags@.map_values(|flag: Flag| flag@) =~= exported_flags(snapshot));
        Ok(flags)
    }
}

} // verus!
