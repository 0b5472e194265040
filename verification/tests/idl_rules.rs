use rsis::{
    get_type_format, parse_dimensions, validate_default, validate_value, IdlValue, ValueType,
};

#[test]
fn type_format_classification() {
    assert_eq!(get_type_format("i8"), ValueType::SignedInteger);
    assert_eq!(get_type_format("i16"), ValueType::SignedInteger);
    assert_eq!(get_type_format("i32"), ValueType::SignedInteger);
    assert_eq!(get_type_format("i64"), ValueType::SignedInteger);
    assert_eq!(get_type_format("u8"), ValueType::UnsignedInteger);
    assert_eq!(get_type_format("u16"), ValueType::UnsignedInteger);
    assert_eq!(get_type_format("u32"), ValueType::UnsignedInteger);
    assert_eq!(get_type_format("u64"), ValueType::UnsignedInteger);
    assert_eq!(get_type_format("f32"), ValueType::FLOATING);
    assert_eq!(get_type_format("f64"), ValueType::FLOATING);
    assert_eq!(get_type_format("String"), ValueType::STRING);
    assert_eq!(get_type_format("bool"), ValueType::BOOLEAN);
    assert_eq!(get_type_format("Quaternion"), ValueType::INVALID);
}

#[test]
fn validate_value_categories() {
    assert!(validate_value(&ValueType::BOOLEAN, &IdlValue::Boolean(true)));
    assert!(!validate_value(&ValueType::BOOLEAN, &IdlValue::Integer(1)));
    assert!(validate_value(&ValueType::SignedInteger, &IdlValue::Integer(-5)));
    assert!(validate_value(&ValueType::UnsignedInteger, &IdlValue::Integer(5)));
    assert!(!validate_value(&ValueType::UnsignedInteger, &IdlValue::Integer(-5)));
    assert!(validate_value(&ValueType::FLOATING, &IdlValue::Float));
    assert!(!validate_value(&ValueType::FLOATING, &IdlValue::Integer(2)));
    assert!(validate_value(
        &ValueType::STRING,
        &IdlValue::Text("x".to_string())
    ));
    assert!(!validate_value(&ValueType::INVALID, &IdlValue::Integer(0)));
    assert!(!validate_value(&ValueType::INVALID, &IdlValue::Boolean(false)));
}

#[test]
fn parse_dimensions_accepts_integer_arrays() {
    let data = IdlValue::Array(vec![IdlValue::Integer(3), IdlValue::Integer(4)]);
    assert_eq!(parse_dimensions("pos", &data), Ok(vec![3, 4]));
    // -1 is the wildcard extent.
    let data = IdlValue::Array(vec![IdlValue::Integer(-1)]);
    assert_eq!(parse_dimensions("pos", &data), Ok(vec![-1]));
    let data = IdlValue::Array(vec![]);
    assert_eq!(parse_dimensions("pos", &data), Ok(vec![]));
}

#[test]
fn parse_dimensions_rejects_bad_values() {
    let data = IdlValue::Integer(3);
    assert_eq!(
        parse_dimensions("pos", &data),
        Err("Field pos [dims] is not an array".to_string())
    );
    let data = IdlValue::Array(vec![IdlValue::Integer(3), IdlValue::Text("x".to_string())]);
    assert_eq!(
        parse_dimensions("pos", &data),
        Err("Field pos [dims][1] is not an integer".to_string())
    );
    let data = IdlValue::Array(vec![IdlValue::Integer(3), IdlValue::Integer(-2)]);
    assert_eq!(
        parse_dimensions("pos", &data),
        Err("Field pos [dims][1] invalid: -2".to_string())
    );
}

#[test]
fn validate_default_scalars() {
    assert_eq!(
        validate_default("x", ValueType::SignedInteger, &[], &IdlValue::Integer(-3)),
        Ok(true)
    );
    assert_eq!(
        validate_default("x", ValueType::SignedInteger, &[], &IdlValue::Array(vec![])),
        Err("Field x default is an array for a scalar value".to_string())
    );
    assert_eq!(
        validate_default("x", ValueType::BOOLEAN, &[], &IdlValue::Integer(1)),
        Err("Field x default does not match defined type: BOOLEAN".to_string())
    );
    assert_eq!(
        validate_default("x", ValueType::UnsignedInteger, &[], &IdlValue::Integer(-1)),
        Err("Field x default does not match defined type: UnsignedInteger".to_string())
    );
}

#[test]
fn validate_default_arrays() {
    // One dimension: every element validated one level down.
    let data = IdlValue::Array(vec![IdlValue::Integer(1), IdlValue::Integer(2)]);
    assert_eq!(
        validate_default("v", ValueType::UnsignedInteger, &[2], &data),
        Ok(true)
    );
    // A scalar where a dimensioned value is declared.
    assert_eq!(
        validate_default("v", ValueType::UnsignedInteger, &[2], &IdlValue::Integer(1)),
        Err("Field v default fails to match dimension".to_string())
    );
    // Nested dimensions.
    let data = IdlValue::Array(vec![
        IdlValue::Array(vec![IdlValue::Integer(1), IdlValue::Integer(2)]),
        IdlValue::Array(vec![IdlValue::Integer(3), IdlValue::Integer(4)]),
    ]);
    assert_eq!(
        validate_default("m", ValueType::SignedInteger, &[2, 2], &data),
        Ok(true)
    );
    // A bad inner element is reported.
    let data = IdlValue::Array(vec![IdlValue::Array(vec![IdlValue::Boolean(true)])]);
    assert_eq!(
        validate_default("m", ValueType::SignedInteger, &[2, 2], &data),
        Err("Field m default does not match defined type: SignedInteger".to_string())
    );
}
