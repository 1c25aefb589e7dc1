use jq_transform::engine::EvalOutput;
use jq_transform::transform::{drive_outputs, initialize, transform, TransformError};

#[test]
fn missing_value_fails() {
    let f = initialize(".").unwrap();
    let (outs, res) = transform(&f, Some(&b"k"[..]), None);
    assert_eq!(outs.len(), 0);
    assert!(matches!(res, Err(TransformError::MissingValue)));
}

#[test]
fn malformed_payload_fails() {
    let f = initialize(".").unwrap();
    let (outs, res) = transform(&f, Some(&b"k"[..]), Some(&b"not json"[..]));
    assert_eq!(outs.len(), 0);
    assert!(matches!(res, Err(TransformError::Decode(_))));
}

#[test]
fn identity_round_trip() {
    let f = initialize(".").unwrap();
    let input = &br#"{"a":1,"b":[true,null],"c":"x"}"#[..];
    let (outs, res) = transform(&f, Some(&b"abc"[..]), Some(input));
    assert!(res.is_ok());
    assert_eq!(outs.len(), 1);
    assert_eq!(outs[0].key, Some(b"abc".to_vec()));
    let back: serde_json::Value = serde_json::from_slice(&outs[0].value).unwrap();
    let original: serde_json::Value = serde_json::from_slice(input).unwrap();
    assert_eq!(back, original);
}

#[test]
fn key_variable_binding() {
    let f = initialize("$KEY").unwrap();
    let (outs, res) = transform(&f, Some(&b"abc"[..]), Some(&b"{}"[..]));
    assert!(res.is_ok());
    assert_eq!(outs.len(), 1);
    assert_eq!(outs[0].key, Some(b"abc".to_vec()));
    let got: serde_json::Value = serde_json::from_slice(&outs[0].value).unwrap();
    assert_eq!(got, serde_json::Value::String("abc".to_string()));
}

#[test]
fn absent_key_binds_null() {
    let f = initialize("$KEY").unwrap();
    let (outs, res) = transform(&f, None, Some(&b"{}"[..]));
    assert!(res.is_ok());
    assert_eq!(outs.len(), 1);
    assert_eq!(outs[0].key, None);
    let got: serde_json::Value = serde_json::from_slice(&outs[0].value).unwrap();
    assert_eq!(got, serde_json::Value::Null);
}

#[test]
fn invalid_key_bytes_substituted() {
    let f = initialize("$KEY").unwrap();
    let key: &[u8] = &[0xff, 0x61];
    let (outs, res) = transform(&f, Some(key), Some(&b"{}"[..]));
    assert!(res.is_ok());
    assert_eq!(outs.len(), 1);
    assert_eq!(outs[0].key, Some(vec![0xff, 0x61]));
    let got: serde_json::Value = serde_json::from_slice(&outs[0].value).unwrap();
    assert_eq!(got, serde_json::Value::String("\u{fffd}a".to_string()));
}

#[test]
fn one_output_per_array_element() {
    let f = initialize(".[]").unwrap();
    let (outs, res) = transform(&f, Some(&b"k"[..]), Some(&b"[1,2,3]"[..]));
    assert!(res.is_ok());
    assert_eq!(outs.len(), 3);
    assert_eq!(outs[0].value, b"1".to_vec());
    assert_eq!(outs[1].value, b"2".to_vec());
    assert_eq!(outs[2].value, b"3".to_vec());
    for out in &outs {
        assert_eq!(out.key, Some(b"k".to_vec()));
    }
}

#[test]
fn zero_outputs_is_success() {
    let f = initialize(".[]").unwrap();
    let (outs, res) = transform(&f, Some(&b"k"[..]), Some(&b"[]"[..]));
    assert!(res.is_ok());
    assert_eq!(outs.len(), 0);
}

#[test]
fn outputs_before_evaluation_error_stand() {
    let f = initialize(".[] | . + 1").unwrap();
    let (outs, res) = transform(&f, Some(&b"k"[..]), Some(&br#"[1,2,"x"]"#[..]));
    assert!(matches!(res, Err(TransformError::Evaluation(_))));
    assert_eq!(outs.len(), 2);
    assert_eq!(outs[0].value, b"2".to_vec());
    assert_eq!(outs[1].value, b"3".to_vec());
}

#[test]
fn invalid_filter_rejected_at_startup() {
    assert!(initialize("][").is_err());
    assert!(initialize(". |").is_err());
    assert!(initialize("no_such_function_here(.)").is_err());
}

#[test]
fn valid_filter_compiles_and_is_reused() {
    let f = initialize(".a").unwrap();
    let (outs1, res1) = transform(&f, None, Some(&br#"{"a":1}"#[..]));
    assert!(res1.is_ok());
    assert_eq!(outs1.len(), 1);
    assert_eq!(outs1[0].value, b"1".to_vec());
    let (outs2, res2) = transform(&f, None, Some(&br#"{"a":"two"}"#[..]));
    assert!(res2.is_ok());
    assert_eq!(outs2.len(), 1);
    assert_eq!(outs2[0].value, br#""two""#.to_vec());
}

#[test]
fn standard_library_filters_available() {
    let f = initialize("map(. * 2)").unwrap();
    let (outs, res) = transform(&f, None, Some(&b"[1,2]"[..]));
    assert!(res.is_ok());
    assert_eq!(outs.len(), 1);
    assert_eq!(outs[0].value, b"[2,4]".to_vec());
}

#[test]
fn drive_outputs_encodes_in_order() {
    let steps = vec![
        EvalOutput::Doc(serde_json::Value::from(1)),
        EvalOutput::Doc(serde_json::Value::String("a".to_string())),
    ];
    let (outs, res) = drive_outputs(Some(&b"k"[..]), steps);
    assert!(res.is_ok());
    assert_eq!(outs.len(), 2);
    assert_eq!(outs[0].value, b"1".to_vec());
    assert_eq!(outs[1].value, br#""a""#.to_vec());
    assert_eq!(outs[0].key, Some(b"k".to_vec()));
    assert_eq!(outs[1].key, Some(b"k".to_vec()));
}

#[test]
fn drive_outputs_stops_at_first_error() {
    let steps = vec![
        EvalOutput::Doc(serde_json::Value::from(1)),
        EvalOutput::Fail("boom".to_string()),
        EvalOutput::Doc(serde_json::Value::from(2)),
    ];
    let (outs, res) = drive_outputs(None, steps);
    assert_eq!(outs.len(), 1);
    assert_eq!(outs[0].value, b"1".to_vec());
    assert_eq!(outs[0].key, None);
    match res {
        Err(TransformError::Evaluation(msg)) => assert_eq!(msg, "boom"),
        other => panic!("expected an evaluation error, got {:?}", other.is_ok()),
    }
}

#[test]
fn drive_outputs_empty_sequence_succeeds() {
    let (outs, res) = drive_outputs(Some(&b"k"[..]), Vec::new());
    assert!(res.is_ok());
    assert_eq!(outs.len(), 0);
}

#[test]
fn out_of_range_number_literal_reported() {
    let f = initialize("1, 2, 1e999").unwrap();
    let (outs, res) = transform(&f, Some(&b"k"[..]), Some(&b"{}"[..]));
    assert!(matches!(res, Err(TransformError::Evaluation(_))));
    assert_eq!(outs.len(), 2);
    assert_eq!(outs[0].value, b"1".to_vec());
    assert_eq!(outs[1].value, b"2".to_vec());
}

#[test]
fn float_values_round_trip() {
    let f = initialize(".").unwrap();
    let input = &br#"[1.2345678901234567e-300,2.2250738585072014e-308,0.1]"#[..];
    let (outs, res) = transform(&f, None, Some(input));
    assert!(res.is_ok());
    assert_eq!(outs.len(), 1);
    let back: serde_json::Value = serde_json::from_slice(&outs[0].value).unwrap();
    let original: serde_json::Value = serde_json::from_slice(input).unwrap();
    assert_eq!(back, original);
    let again: serde_json::Value = serde_json::from_slice(&outs[0].value).unwrap();
    assert_eq!(serde_json::to_vec(&again).unwrap(), outs[0].value);
}
