use libsql_python::error::Error;
use libsql_python::value::{decode_row, decode_value, encode_param, encode_params, HostValue, ParamProbe, Value};

fn probe() -> ParamProbe {
    ParamProbe { is_none: false, int: None, float: None, text: None, bytes: None }
}

#[test]
fn null_binds_as_null() {
    let p = ParamProbe { is_none: true, ..probe() };
    assert_eq!(encode_param(p), Ok(Value::Null));
}

#[test]
fn integer_wins_over_float() {
    let p = ParamProbe { int: Some(42), float: Some(42.0f64.to_bits()), ..probe() };
    assert_eq!(encode_param(p), Ok(Value::Integer(42)));
}

#[test]
fn float_binds_as_real() {
    let bits = 2.5f64.to_bits();
    let p = ParamProbe { float: Some(bits), ..probe() };
    assert_eq!(encode_param(p), Ok(Value::Real(bits)));
}

#[test]
fn text_and_bytes_bind_in_order() {
    let p = ParamProbe { text: Some("hello".to_string()), bytes: Some(vec![1]), ..probe() };
    assert_eq!(encode_param(p), Ok(Value::Text("hello".to_string())));
    let p = ParamProbe { bytes: Some(vec![0, 255, 7]), ..probe() };
    assert_eq!(encode_param(p), Ok(Value::Blob(vec![0, 255, 7])));
}

#[test]
fn unsupported_parameter_is_refused() {
    assert_eq!(encode_param(probe()), Err(Error::UnsupportedParameter));
}

#[test]
fn parameters_keep_their_order() {
    let ps = vec![
        ParamProbe { int: Some(1), ..probe() },
        ParamProbe { is_none: true, ..probe() },
        ParamProbe { text: Some("x".to_string()), ..probe() },
    ];
    assert_eq!(
        encode_params(ps),
        Ok(vec![Value::Integer(1), Value::Null, Value::Text("x".to_string())])
    );
    assert_eq!(encode_params(vec![]), Ok(vec![]));
}

#[test]
fn one_unsupported_parameter_fails_the_list() {
    let ps = vec![ParamProbe { int: Some(1), ..probe() }, probe(), ParamProbe { int: Some(3), ..probe() }];
    assert_eq!(encode_params(ps), Err(Error::UnsupportedParameter));
}

#[test]
fn every_kind_round_trips() {
    let cases = vec![
        (ParamProbe { is_none: true, ..probe() }, HostValue::Null),
        (ParamProbe { int: Some(i64::MIN), float: Some(0), ..probe() }, HostValue::Int(i64::MIN)),
        (ParamProbe { float: Some((-0.0f64).to_bits()), ..probe() }, HostValue::Float((-0.0f64).to_bits())),
        (ParamProbe { text: Some("ünï".to_string()), ..probe() }, HostValue::Text("ünï".to_string())),
        (ParamProbe { bytes: Some(vec![]), ..probe() }, HostValue::Bytes(vec![])),
    ];
    for (p, h) in cases {
        let v = encode_param(p).unwrap();
        assert_eq!(decode_value(v), h);
    }
}

#[test]
fn rows_decode_column_by_column() {
    let row = vec![Value::Integer(7), Value::Real(1.5f64.to_bits()), Value::Null, Value::Blob(vec![9])];
    assert_eq!(
        decode_row(row),
        vec![HostValue::Int(7), HostValue::Float(1.5f64.to_bits()), HostValue::Null, HostValue::Bytes(vec![9])]
    );
    assert_eq!(decode_row(vec![]), vec![]);
}
