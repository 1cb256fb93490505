use flipt::evaluation::models::{EvaluationFlag, EvaluationFlagType, Flag, UnknownEnumValue};

#[test]
fn flag_type_codes_are_read() {
    assert_eq!(EvaluationFlagType::try_from(0), Ok(EvaluationFlagType::Variant));
    assert_eq!(EvaluationFlagType::try_from(1), Ok(EvaluationFlagType::Boolean));
    assert_eq!(EvaluationFlagType::try_from(2), Err(UnknownEnumValue(2)));
    assert_eq!(EvaluationFlagType::try_from(-1), Err(UnknownEnumValue(-1)));
}

#[test]
fn unknown_flag_type_code_gives_the_default_type() {
    let record = EvaluationFlag { key: String::from("flag1"), enabled: true, flag_type: 7 };
    let flag = Flag::from_record(record);
    assert_eq!(
        flag,
        Flag { key: String::from("flag1"), enabled: true, flag_type: EvaluationFlagType::Variant }
    );
}
