use lenient::{decode_option, decode_usize, DecodeError, FallbackEvent, Lenient, Optional, RecordInput};
use serde_json::Value;
use std::ops::{Deref, DerefMut};

#[derive(Debug, Default, PartialEq)]
struct MyType {
    value: usize,
}

fn decode_my_type(input: &Value) -> Result<MyType, DecodeError> {
    let record = RecordInput::new(input)?;
    let value = record.strict("value", &decode_usize)?;
    Ok(MyType { value })
}

fn parse(json: &str) -> Value {
    serde_json::from_str(json).unwrap()
}

#[test]
fn test_lenient_valid() {
    let json = r#"{ "value": 42 }"#;
    let mut sink: Vec<FallbackEvent> = Vec::new();
    let result: Lenient<MyType, true> =
        Lenient::decode(&parse(json), &decode_my_type, &mut sink).unwrap();
    assert_eq!(result.value, 42);
}

#[test]
fn test_lenient_invalid() {
    let json = r#"{ "value": "oops" }"#;
    let mut sink: Vec<FallbackEvent> = Vec::new();
    let result: Lenient<MyType, true> =
        Lenient::decode(&parse(json), &decode_my_type, &mut sink).unwrap();
    assert_eq!(result.value, 0); // fallback to default
}

#[test]
fn test_deref() {
    let wrapper: Lenient<MyType, true> = Lenient(MyType { value: 100 });
    assert_eq!(wrapper.value, 100);
    assert_eq!(wrapper.deref().value, 100);
}

#[test]
fn test_optional_valid() {
    let json = r#"{ "value": 7 }"#;
    let mut sink: Vec<FallbackEvent> = Vec::new();
    let result: Optional<MyType, true> =
        Lenient::decode_optional(&parse(json), &decode_my_type, &mut sink).unwrap();
    assert_eq!(result.0.unwrap().value, 7);
}

#[test]
fn test_optional_invalid() {
    let json = r#"{ "value": false }"#;
    let mut sink: Vec<FallbackEvent> = Vec::new();
    let result: Optional<MyType, true> =
        Lenient::decode_optional(&parse(json), &decode_my_type, &mut sink).unwrap();
    assert_eq!(result.0, None);
}

#[test]
fn well_formed_value_is_kept_and_not_reported() {
    let mut sink: Vec<FallbackEvent> = Vec::new();
    let loud: Lenient<usize, true> = Lenient::decode(&parse("17"), &decode_usize, &mut sink).unwrap();
    assert_eq!(loud.0, 17);
    let quiet: Lenient<usize, false> =
        Lenient::decode(&parse("18"), &decode_usize, &mut sink).unwrap();
    assert_eq!(quiet.0, 18);
    assert!(sink.is_empty());
}

#[test]
fn malformed_value_reports_once_when_enabled() {
    let mut sink: Vec<FallbackEvent> = Vec::new();
    let result: Lenient<usize, true> =
        Lenient::decode(&parse(r#""oops""#), &decode_usize, &mut sink).unwrap();
    assert_eq!(result.0, 0);
    assert_eq!(
        sink,
        vec![FallbackEvent {
            error: "invalid type: string \"oops\", expected usize".to_string(),
            default_text: "0".to_string(),
        }]
    );
}

#[test]
fn malformed_value_is_silent_when_disabled() {
    let mut sink: Vec<FallbackEvent> = Vec::new();
    let result: Lenient<usize, false> =
        Lenient::decode(&parse(r#""oops""#), &decode_usize, &mut sink).unwrap();
    assert_eq!(result.0, 0);
    assert!(sink.is_empty());
}

#[test]
fn events_are_added_after_those_already_reported() {
    let first = FallbackEvent { error: "earlier".to_string(), default_text: "x".to_string() };
    let mut sink: Vec<FallbackEvent> = vec![first.clone()];
    let _: Lenient<usize, true> = Lenient::decode(&parse("[]"), &decode_usize, &mut sink).unwrap();
    let _: Lenient<usize, true> = Lenient::decode(&parse("3"), &decode_usize, &mut sink).unwrap();
    let _: Lenient<usize, true> = Lenient::decode(&parse("{}"), &decode_usize, &mut sink).unwrap();
    assert_eq!(sink.len(), 3);
    assert_eq!(sink[0], first);
    assert_eq!(sink[1].error, "invalid type: sequence, expected usize");
    assert_eq!(sink[2].error, "invalid type: map, expected usize");
}

#[test]
fn fallback_event_describes_a_nested_failure() {
    let mut sink: Vec<FallbackEvent> = Vec::new();
    let result: Lenient<MyType, true> =
        Lenient::decode(&parse(r#"{ "value": "oops" }"#), &decode_my_type, &mut sink).unwrap();
    assert_eq!(*result, MyType { value: 0 });
    assert_eq!(sink.len(), 1);
    assert_eq!(sink[0].error, "field `value`: invalid type: string \"oops\", expected usize");
    assert_eq!(sink[0].default_text, "MyType { value: 0 }");
}

#[test]
fn recover_keeps_a_value_and_replaces_an_error() {
    let mut sink: Vec<FallbackEvent> = Vec::new();
    let kept: Lenient<u32, true> = Lenient::recover(Ok(9), &mut sink);
    assert_eq!(kept.0, 9);
    assert!(sink.is_empty());
    let failure = DecodeError::Rejected { message: "no".to_string() };
    let replaced: Lenient<u32, true> = Lenient::recover(Err(failure), &mut sink);
    assert_eq!(replaced.0, 0);
    assert_eq!(sink, vec![FallbackEvent { error: "no".to_string(), default_text: "0".to_string() }]);
}

#[test]
fn optional_null_is_none_without_event() {
    let mut sink: Vec<FallbackEvent> = Vec::new();
    let result: Optional<usize, true> =
        Lenient::decode_optional(&parse("null"), &decode_usize, &mut sink).unwrap();
    assert_eq!(result.0, None);
    assert!(sink.is_empty());
}

#[test]
fn optional_malformed_is_none_with_event() {
    let mut sink: Vec<FallbackEvent> = Vec::new();
    let result: Optional<usize, true> =
        Lenient::decode_optional(&parse("true"), &decode_usize, &mut sink).unwrap();
    assert_eq!(result.0, None);
    assert_eq!(
        sink,
        vec![FallbackEvent {
            error: "invalid type: boolean `true`, expected usize".to_string(),
            default_text: "None".to_string(),
        }]
    );
}

#[test]
fn optional_value_is_some() {
    let mut sink: Vec<FallbackEvent> = Vec::new();
    let result: Optional<usize, false> =
        Lenient::decode_optional(&parse("10"), &decode_usize, &mut sink).unwrap();
    assert_eq!(result.0, Some(10));
    assert!(sink.is_empty());
}

#[test]
fn decode_option_tells_null_from_values() {
    assert_eq!(decode_option(&parse("null"), &decode_usize), Ok(None));
    assert_eq!(decode_option(&parse("4"), &decode_usize), Ok(Some(4)));
    assert_eq!(
        decode_option(&parse("\"4\""), &decode_usize),
        Err(DecodeError::Rejected {
            message: "invalid type: string \"4\", expected usize".to_string()
        })
    );
}

#[test]
fn unwrap_or_default_takes_the_value_or_the_default() {
    let some: Optional<usize, true> = Lenient(Some(6));
    assert_eq!(some.unwrap_or_default(), 6);
    let none: Optional<usize, true> = Lenient(None);
    assert_eq!(none.unwrap_or_default(), 0);
    let text: Optional<String, false> = Lenient(None);
    assert_eq!(text.unwrap_or_default(), "");
}

#[test]
fn deref_mut_writes_through() {
    let mut wrapper: Lenient<MyType, false> = Lenient(MyType { value: 1 });
    wrapper.value = 5;
    assert_eq!(wrapper.0.value, 5);
    *wrapper.deref_mut() = MyType { value: 8 };
    assert_eq!(wrapper.into_inner(), MyType { value: 8 });
}

#[test]
fn default_wrapper_holds_the_default() {
    let wrapper: Lenient<MyType, true> = Lenient::default();
    assert_eq!(wrapper.0, MyType { value: 0 });
    let optional: Optional<usize, true> = Lenient::default();
    assert_eq!(optional.0, None);
}
