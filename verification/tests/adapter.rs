use flipt::base_url::{BaseUrl, InvalidUrl};
use flipt::error::UpstreamError;
use flipt::evaluation::models::{
    BatchEvaluationResponse, BatchEvaluationResponseItem, BooleanEvaluationResponse,
    ErrorEvaluationReason, ErrorEvaluationResponse, EvaluationFlagType, EvaluationReason,
    EvaluationResponse, EvaluationResponseType, Millis,
};
use flipt::transport::Reply;
use flipt::util::{conclude, deserialize, status_is_success};

fn boolean(flag_key: &str) -> BooleanEvaluationResponse {
    BooleanEvaluationResponse {
        enabled: false,
        flag_key: flag_key.into(),
        reason: EvaluationReason::Default,
        request_duration_millis: Millis { bits: 0 },
        timestamp: String::new(),
    }
}

fn error(flag_key: &str) -> ErrorEvaluationResponse {
    ErrorEvaluationResponse {
        flag_key: flag_key.into(),
        namespace_key: "default".into(),
        reason: ErrorEvaluationReason::NotFound,
    }
}

fn wire_boolean(flag_key: &str) -> EvaluationResponse {
    EvaluationResponse {
        response_type: EvaluationResponseType::Boolean,
        variant_response: None,
        boolean_response: Some(boolean(flag_key)),
        error_response: None,
    }
}

fn wire_error(flag_key: &str) -> EvaluationResponse {
    EvaluationResponse {
        response_type: EvaluationResponseType::Error,
        variant_response: None,
        boolean_response: None,
        error_response: Some(error(flag_key)),
    }
}

#[test]
fn success_is_200_to_299() {
    assert!(!status_is_success(0));
    assert!(!status_is_success(199));
    assert!(status_is_success(200));
    assert!(status_is_success(204));
    assert!(status_is_success(299));
    assert!(!status_is_success(300));
    assert!(!status_is_success(404));
    assert!(!status_is_success(u16::MAX));
}

#[test]
fn deserialize_hands_out_the_payload_under_success() {
    let reply = Reply { status: 201, payload: Ok(5u32), message: Some("unused".to_string()) };
    assert_eq!(deserialize(reply), Ok(5));
}

#[test]
fn deserialize_rejects_every_other_combination() {
    let reply: Reply<u32> = Reply { status: 200, payload: Err("bad".to_string()), message: None };
    assert_eq!(
        deserialize(reply),
        Err(UpstreamError { code: Some(200), message: Some("bad".to_string()) })
    );
    let reply = Reply { status: 302, payload: Ok(5u32), message: None };
    assert_eq!(deserialize(reply), Err(UpstreamError { code: Some(302), message: None }));
    let reply: Reply<u32> =
        Reply { status: 503, payload: Err("bad".to_string()), message: Some("down".to_string()) };
    assert_eq!(
        deserialize(reply),
        Err(UpstreamError { code: Some(503), message: Some("down".to_string()) })
    );
}

#[test]
fn conclude_tells_the_two_failures_apart() {
    let failed: Result<Reply<u32>, String> = Err("dns error".to_string());
    let transport = conclude(failed).unwrap_err();
    assert_eq!(transport, UpstreamError::default_with_message("dns error".to_string()));
    assert!(transport.is_transport_failure());
    assert_eq!(transport.code, None);

    let answered: Result<Reply<u32>, String> =
        Ok(Reply { status: 401, payload: Err("x".to_string()), message: Some("no".to_string()) });
    let upstream = conclude(answered).unwrap_err();
    assert_eq!(upstream, UpstreamError::upstream(401, Some("no".to_string())));
    assert!(!upstream.is_transport_failure());
    assert_eq!(upstream.code, Some(401));

    let fine: Result<Reply<u32>, String> = Ok(Reply { status: 200, payload: Ok(1), message: None });
    assert_eq!(conclude(fine), Ok(1));
}

#[test]
fn item_is_read_only_with_the_one_payload_it_announces() {
    assert_eq!(
        BatchEvaluationResponseItem::from_wire(wire_boolean("f")),
        Some(BatchEvaluationResponseItem::BooleanResponse(boolean("f")))
    );
    assert_eq!(
        BatchEvaluationResponseItem::from_wire(wire_error("f")),
        Some(BatchEvaluationResponseItem::ErrorResponse(error("f")))
    );
    let mut mismatched = wire_boolean("f");
    mismatched.response_type = EvaluationResponseType::Variant;
    assert_eq!(BatchEvaluationResponseItem::from_wire(mismatched), None);
    let mut doubled = wire_boolean("f");
    doubled.error_response = Some(error("f"));
    assert_eq!(BatchEvaluationResponseItem::from_wire(doubled), None);
    let mut empty = wire_error("f");
    empty.error_response = None;
    assert_eq!(BatchEvaluationResponseItem::from_wire(empty), None);
}

#[test]
fn batch_is_read_item_by_item_in_order() {
    let duration = Millis { bits: 2.0f64.to_bits() };
    let wire = vec![wire_boolean("a"), wire_error("b"), wire_boolean("c")];
    let batch = BatchEvaluationResponse::from_wire(duration, wire).unwrap();
    assert_eq!(batch.request_duration_millis, duration);
    assert_eq!(
        batch.responses,
        vec![
            BatchEvaluationResponseItem::BooleanResponse(boolean("a")),
            BatchEvaluationResponseItem::ErrorResponse(error("b")),
            BatchEvaluationResponseItem::BooleanResponse(boolean("c")),
        ]
    );
    let empty = BatchEvaluationResponse::from_wire(duration, vec![]).unwrap();
    assert!(empty.responses.is_empty());
}

#[test]
fn batch_reports_the_first_item_that_cannot_be_read() {
    let mut broken = wire_boolean("b");
    broken.boolean_response = None;
    let mut also_broken = wire_error("d");
    also_broken.response_type = EvaluationResponseType::Boolean;
    let wire = vec![wire_boolean("a"), broken, wire_boolean("c"), also_broken];
    assert_eq!(BatchEvaluationResponse::from_wire(Millis { bits: 0 }, wire), Err(1));
}

#[test]
fn flag_type_code_round_trip() {
    assert_eq!(EvaluationFlagType::Variant.code(), 0);
    assert_eq!(EvaluationFlagType::Boolean.code(), 1);
    assert_eq!(EvaluationFlagType::default(), EvaluationFlagType::Variant);
    for flag_type in [EvaluationFlagType::Variant, EvaluationFlagType::Boolean] {
        assert_eq!(EvaluationFlagType::try_from(flag_type.code()), Ok(flag_type));
    }
}

#[test]
fn base_url_is_the_parsers_serialization() {
    let base = BaseUrl::parse("http://localhost:8080").unwrap();
    assert_eq!(base.as_str(), "http://localhost:8080/");
    let base = BaseUrl::parse("HTTP://Example.COM:80/a/../b").unwrap();
    assert_eq!(base.as_str(), "http://example.com/b");
    assert_eq!(base.clone(), base);
}

#[test]
fn base_url_rejects_what_is_no_absolute_url() {
    assert_eq!(
        BaseUrl::parse("localhost/path"),
        Err(InvalidUrl { reason: url::ParseError::RelativeUrlWithoutBase })
    );
    assert_eq!(
        BaseUrl::parse("http://"),
        Err(InvalidUrl { reason: url::ParseError::EmptyHost })
    );
    assert!(BaseUrl::parse("").is_err());
}
