//! The values that travel between the caller and the service.

use std::collections::HashMap;
use vstd::prelude::*;

verus! {

/// Why an evaluation came out as it did.
#[derive(Clone, Copy, Debug, PartialEq, Eq, Structural)]
pub enum EvaluationReason {
    Unknown,
    FlagDisabled,
    Match,
    Default,
}

/// Why one request of a batch could not be evaluated.
#[derive(Clone, Copy, Debug, PartialEq, Eq, Structural)]
pub enum ErrorEvaluationReason {
    Unknown,
    NotFound,
}

/// Which of the three payloads an item of a batch response carries.
#[derive(Clone, Copy, Debug, PartialEq, Eq, Structural)]
pub enum EvaluationResponseType {
    Variant,
    Boolean,
    Error,
}

/// The type of a flag.
#[derive(Clone, Copy, Debug, PartialEq, Eq, Structural)]
pub enum EvaluationFlagType {
    Variant,
    Boolean,
}

/// A type code that names no flag type.
#[derive(Clone, Copy, Debug, PartialEq, Eq, Structural)]
pub struct UnknownEnumValue(pub i32);

impl EvaluationFlagType {
    /// The flag type that a code of the wire names, if it names one.
    pub open spec fn from_code(code: i32) -> Option<EvaluationFlagType> {
        if code == 0 {
            Some(EvaluationFlagType::Variant)
        } else if code == 1 {
            Some(EvaluationFlagType::Boolean)
        } else {
            None
        }
    }

    /// The flag type that stands for a code: the one it names, or the default
    /// where it names none.
    pub open spec fn of_code(code: i32) -> EvaluationFlagType {
        match Self::from_code(code) {
            Some(flag_type) => flag_type,
            None => EvaluationFlagType::Variant,
        }
    }

    /// The code of the wire for this flag type.
    pub open spec fn spec_code(self) -> i32 {
        match self {
            EvaluationFlagType::Variant => 0,
            EvaluationFlagType::Boolean => 1,
        }
    }

    /// Reads a code of the wire; a code that names no flag type is handed back
    /// as the error.
    pub fn try_from(code: i32) -> (r: Result<EvaluationFlagType, UnknownEnumValue>)
        ensures
            r == match Self::from_code(code) {
                Some(flag_type) => Ok::<EvaluationFlagType, UnknownEnumValue>(flag_type),
                None => Err(UnknownEnumValue(code)),
            },
    {
        if code == 0 {
            Ok(EvaluationFlagType::Variant)
        } else if code == 1 {
            Ok(EvaluationFlagType::Boolean)
        } else {
            Err(UnknownEnumValue(code))
        }
    }

    /// The code of the wire for this flag type.
    #[verifier::when_used_as_spec(spec_code)]
    pub fn code(self) -> (code: i32)
        ensures
            code == self.spec_code(),
            Self::from_code(code) == Some(self),
    {
        match self {
            EvaluationFlagType::Variant => 0,
            EvaluationFlagType::Boolean => 1,
        }
    }
}

impl Default for EvaluationFlagType {
    /// The flag type that stands in for a code that names none.
    fn default() -> (flag_type: EvaluationFlagType)
        ensures
            flag_type == EvaluationFlagType::Variant,
    {
        EvaluationFlagType::Variant
    }
}

/// A flag as a namespace snapshot lists it: the type is still the code of the
/// wire.
#[derive(Clone, Debug, PartialEq, Eq)]
pub struct EvaluationFlag {
    pub key: String,
    pub enabled: bool,
    pub flag_type: i32,
}

/// The flags of a namespace at one point in time, in the order of the wire.
#[derive(Clone, Debug, PartialEq, Eq)]
pub struct EvaluationNamespaceSnapshot {
    pub flags: Vec<EvaluationFlag>,
}

/// A flag as the client hands it out.
#[derive(Clone, Debug, PartialEq)]
pub struct Flag {
    pub key: String,
    pub enabled: bool,
    pub flag_type: EvaluationFlagType,
}

/// The mathematical value of a [`Flag`].
pub ghost struct FlagView {
    pub key: Seq<char>,
    pub enabled: bool,
    pub flag_type: EvaluationFlagType,
}

impl View for Flag {
    type V = FlagView;

    open spec fn view(&self) -> FlagView {
        FlagView { key: self.key@, enabled: self.enabled, flag_type: self.flag_type }
    }
}

impl EvaluationFlag {
    /// The flag that the client hands out for this record: key and state as
    /// they are, and the type that stands for the record's code.
    pub open spec fn exported(&self) -> FlagView {
        FlagView {
            key: self.key@,
            enabled: self.enabled,
            flag_type: EvaluationFlagType::of_code(self.flag_type),
        }
    }
}

impl Flag {
    /// Makes the flag that the client hands out for `record`. A code that
    /// names no flag type is no error: the flag then has the default type.
    pub fn from_record(record: EvaluationFlag) -> (flag: Flag)
        ensures
            flag@ == record.exported(),
    {
        let flag_type = match EvaluationFlagType::try_from(record.flag_type) {
            Ok(flag_type) => flag_type,
            Err(_) => EvaluationFlagType::default(),
        };
        Flag { key: record.key, enabled: record.enabled, flag_type }
    }
}

/// One evaluation to make.
#[derive(Clone, Debug, PartialEq)]
pub struct EvaluationRequest {
    pub request_id: Option<String>,
    pub namespace_key: String,
    pub flag_key: String,
    pub entity_id: String,
    pub context: HashMap<String, String>,
    pub reference: Option<String>,
}

/// Several evaluations to make in one call. The service answers them in the
/// order in which `requests` lists them.
#[derive(Clone, Debug, PartialEq)]
pub struct BatchEvaluationRequest {
    pub request_id: Option<String>,
    pub requests: Vec<EvaluationRequest>,
    pub reference: Option<String>,
}

/// Asks for the flags of the namespace `key`. An empty `reference` asks for
/// the same as none.
#[derive(Clone, Debug, PartialEq, Eq)]
pub struct EvaluationNamespaceSnapshotRequest {
    pub key: String,
    pub reference: Option<String>,
}

/// A span of time in milliseconds, held as the bit pattern of the IEEE 754
/// double in which the service reports it.
#[derive(Clone, Copy, Debug, PartialEq, Eq, Structural)]
pub struct Millis {
    pub bits: u64,
}

/// The outcome of evaluating a boolean flag.
#[derive(Clone, Debug, PartialEq, Eq)]
pub struct BooleanEvaluationResponse {
    pub enabled: bool,
    pub flag_key: String,
    pub reason: EvaluationReason,
    pub request_duration_millis: Millis,
    pub timestamp: String,
}

/// The outcome of evaluating a variant flag.
#[derive(Clone, Debug, PartialEq, Eq)]
pub struct VariantEvaluationResponse {
    pub matched: bool,
    pub variant_key: String,
    pub variant_attachment: Option<String>,
    pub reason: EvaluationReason,
    pub flag_key: String,
    pub segment_keys: Vec<String>,
    pub request_duration_millis: Millis,
    pub timestamp: String,
}

/// The outcome of a request of a batch that could not be evaluated.
#[derive(Clone, Debug, PartialEq, Eq)]
pub struct ErrorEvaluationResponse {
    pub flag_key: String,
    pub namespace_key: String,
    pub reason: ErrorEvaluationReason,
}

/// An item of a batch response as it stands on the wire: the type that it
/// announces, and the payloads that came with it.
#[derive(Clone, Debug, PartialEq, Eq)]
pub struct EvaluationResponse {
    pub response_type: EvaluationResponseType,
    pub variant_response: Option<VariantEvaluationResponse>,
    pub boolean_response: Option<BooleanEvaluationResponse>,
    pub error_response: Option<ErrorEvaluationResponse>,
}

/// An item of a batch response: one payload, and with it its type.
#[derive(Clone, Debug, PartialEq, Eq)]
pub enum BatchEvaluationResponseItem {
    VariantResponse(VariantEvaluationResponse),
    BooleanResponse(BooleanEvaluationResponse),
    ErrorResponse(ErrorEvaluationResponse),
}

impl EvaluationResponse {
    /// The item that this stands for: it has exactly one payload, and that is
    /// the one of the type it announces. Anything else stands for no item.
    pub open spec fn read(self) -> Option<BatchEvaluationResponseItem> {
        match (
            self.response_type,
            self.variant_response,
            self.boolean_response,
            self.error_response,
        ) {
            (EvaluationResponseType::Variant, Some(variant), None, None) => Some(
                BatchEvaluationResponseItem::VariantResponse(variant),
            ),
            (EvaluationResponseType::Boolean, None, Some(boolean), None) => Some(
                BatchEvaluationResponseItem::BooleanResponse(boolean),
            ),
            (EvaluationResponseType::Error, None, None, Some(error)) => Some(
                BatchEvaluationResponseItem::ErrorResponse(error),
            ),
            _ => None,
        }
    }
}

impl BatchEvaluationResponseItem {
    /// The type of the payload.
    pub open spec fn spec_response_type(&self) -> EvaluationResponseType {
        match self {
            BatchEvaluationResponseItem::VariantResponse(_) => EvaluationResponseType::Variant,
            BatchEvaluationResponseItem::BooleanResponse(_) => EvaluationResponseType::Boolean,
            BatchEvaluationResponseItem::ErrorResponse(_) => EvaluationResponseType::Error,
        }
    }

    /// The item as it would stand on the wire.
    pub open spec fn on_the_wire(self) -> EvaluationResponse {
        match self {
            BatchEvaluationResponseItem::VariantResponse(variant) => EvaluationResponse {
                response_type: EvaluationResponseType::Variant,
                variant_response: Some(variant),
                boolean_response: None,
                error_response: None,
            },
            BatchEvaluationResponseItem::BooleanResponse(boolean) => EvaluationResponse {
                response_type: EvaluationResponseType::Boolean,
                variant_response: None,
                boolean_response: Some(boolean),
                error_response: None,
            },
            BatchEvaluationResponseItem::ErrorResponse(error) => EvaluationResponse {
                response_type: EvaluationResponseType::Error,
                variant_response: None,
                boolean_response: None,
                error_response: Some(error),
            },
        }
    }

    /// Reads an item off the wire. Gives nothing where `wire` has no payload,
    /// more than one, or one of another type than it announces.
    pub fn from_wire(wire: EvaluationResponse) -> (item: Option<BatchEvaluationResponseItem>)
        ensures
            item == wire.read(),
            item matches Some(read) ==> read.spec_response_type() == wire.response_type,
    {
        match wire.response_type {
            EvaluationResponseType::Variant => match (
                wire.variant_response,
                wire.boolean_response,
                wire.error_response,
            ) {
                (Some(variant), None, None) => Some(
                    BatchEvaluationResponseItem::VariantResponse(variant),
                ),
                _ => None,
            },
            EvaluationResponseType::Boolean => match (
                wire.variant_response,
                wire.boolean_response,
                wire.error_response,
            ) {
                (None, Some(boolean), None) => Some(
                    BatchEvaluationResponseItem::BooleanResponse(boolean),
                ),
                _ => None,
            },
            EvaluationResponseType::Error => match (
                wire.variant_response,
                wire.boolean_response,
                wire.error_response,
            ) {
                (None, None, Some(error)) => Some(
                    BatchEvaluationResponseItem::ErrorResponse(error),
                ),
                _ => None,
            },
        }
    }

    /// The type of the payload.
    #[verifier::when_used_as_spec(spec_response_type)]
    pub fn response_type(&self) -> (response_type: EvaluationResponseType)
        ensures
            response_type == self.spec_response_type(),
    {
        match self {
            BatchEvaluationResponseItem::VariantResponse(_) => EvaluationResponseType::Variant,
            BatchEvaluationResponseItem::BooleanResponse(_) => EvaluationResponseType::Boolean,
            BatchEvaluationResponseItem::ErrorResponse(_) => EvaluationResponseType::Error,
        }
    }

    /// The payload, if the item is of type `Variant`.
    pub fn variant_response(&self) -> (payload: Option<&VariantEvaluationResponse>)
        ensures
            payload is Some <==> self.spec_response_type() == EvaluationResponseType::Variant,
            payload matches Some(variant) ==> *self
                == BatchEvaluationResponseItem::VariantResponse(*variant),
    {
        match self {
            BatchEvaluationResponseItem::VariantResponse(variant) => Some(variant),
            _ => None,
        }
    }

    /// The payload, if the item is of type `Boolean`.
    pub fn boolean_response(&self) -> (payload: Option<&BooleanEvaluationResponse>)
        ensures
            payload is Some <==> self.spec_response_type() == EvaluationResponseType::Boolean,
            payload matches Some(boolean) ==> *self
                == BatchEvaluationResponseItem::BooleanResponse(*boolean),
    {
        match self {
            BatchEvaluationResponseItem::BooleanResponse(boolean) => Some(boolean),
            _ => None,
        }
    }

    /// The payload, if the item is of type `Error`.
    pub fn error_response(&self) -> (payload: Option<&ErrorEvaluationResponse>)
        ensures
            payload is Some <==> self.spec_response_type() == EvaluationResponseType::Error,
            payload matches Some(error) ==> *self == BatchEvaluationResponseItem::ErrorResponse(
                *error,
            ),
    {
        match self {
            BatchEvaluationResponseItem::ErrorResponse(error) => Some(error),
            _ => None,
        }
    }
}

/// What the service makes of a batch: one item for each request, in the order
/// of the requests.
#[derive(Clone, Debug, PartialEq, Eq)]
pub struct BatchEvaluationResponse {
    pub request_duration_millis: Millis,
    pub responses: Vec<BatchEvaluationResponseItem>,
}

/// Whether every item before `end` stands for an item.
pub open spec fn all_read(wire: Seq<EvaluationResponse>, end: int) -> bool {
    forall|i: int| 0 <= i < end ==> (#[trigger] wire[i]).read() is Some
}

impl BatchEvaluationResponse {
    /// Reads a batch response off the wire, item by item and in order.
    ///
    /// Succeeds exactly where every item of `wire` stands for an item; the
    /// result then has as many items as `wire`, the item at each place read
    /// from the one at that place. Otherwise the error is the place of the
    /// first item that stands for none.
    pub fn from_wire(request_duration_millis: Millis, wire: Vec<EvaluationResponse>) -> (r: Result<
        BatchEvaluationResponse,
        usize,
    >)
        ensures
            r is Ok <==> all_read(wire@, wire@.len() as int),
            r matches Ok(batch) ==> {
                &&& batch.request_duration_millis == request_duration_millis
                &&& batch.responses@.len() == wire@.len()
                &&& forall|i: int|
                    0 <= i < wire@.len() ==> Some(#[trigger] batch.responses@[i]) == wire@[i].read()
            },
            r matches Err(at) ==> {
                &&& at < wire@.len()
                &&& wire@[at as int].read() is None
                &&& all_read(wire@, at as int)
            },
    {
        let ghost items = wire@;
        let mut responses: Vec<BatchEvaluationResponseItem> = Vec::new();
        for item in it: wire.into_iter()
            invariant
                it.seq() == items,
                responses@.len() == it.index(),
                all_read(items, it.index() as int),
                forall|i: int|
                    0 <= i < it.index() ==> Some(#[trigger] responses@[i]) == items[i].read(),
        {
            match BatchEvaluationResponseItem::from_wire(item) {
                Some(read) => responses.push(read),
                None => {
                    return Err(responses.len());
                },
            }
        }
        Ok(BatchEvaluationResponse { request_duration_millis, responses })
    }
}

} // verus!
