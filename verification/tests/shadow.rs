use lenient::{
    decode_field, decode_record, decode_shadow, decode_usize, reassemble, DecodeError,
    FallbackEvent, FieldDescriptor, FieldFault, FieldPolicy, Lenient, RecordInput, ShadowValue,
};
use serde_json::Value;

fn source(json: &str) -> Value {
    serde_json::from_str(json).unwrap()
}

fn field(name: &str, policy: FieldPolicy) -> FieldDescriptor {
    FieldDescriptor { name: name.to_string(), declared_type: "usize".to_string(), policy }
}

fn sample_fields() -> Vec<FieldDescriptor> {
    vec![
        field("a", FieldPolicy::Strict),
        field("b", FieldPolicy::Lenient),
        field("c", FieldPolicy::Optional),
    ]
}

fn shadow_of(json: &str) -> (Result<Vec<ShadowValue<usize, true>>, DecodeError>, Vec<FallbackEvent>) {
    let mut sink = Vec::new();
    let shadow = decode_shadow(&source(json), &sample_fields(), &decode_usize, &mut sink);
    (shadow, sink)
}

fn record_of(json: &str) -> Result<Vec<usize>, DecodeError> {
    let mut sink = Vec::new();
    decode_record::<usize, _, true>(&source(json), &sample_fields(), &decode_usize, &mut sink)
}

fn strict(value: &ShadowValue<usize, true>) -> Option<usize> {
    match value {
        ShadowValue::Strict(v) => Some(*v),
        _ => None,
    }
}

fn lenient(value: &ShadowValue<usize, true>) -> Option<usize> {
    match value {
        ShadowValue::Lenient(w) => Some(w.0),
        _ => None,
    }
}

fn optional(value: &ShadowValue<usize, true>) -> Option<Option<usize>> {
    match value {
        ShadowValue::Optional(w) => Some(w.0),
        _ => None,
    }
}

#[test]
fn shadow_of_empty_input_fails_on_the_strict_field() {
    let (shadow, sink) = shadow_of("{}");
    assert_eq!(
        shadow.err(),
        Some(DecodeError::RequiredField { name: "a".to_string(), cause: FieldFault::Absent })
    );
    assert!(sink.is_empty());
    assert!(record_of("{}").is_err());
}

#[test]
fn shadow_with_only_the_strict_field() {
    let (shadow, sink) = shadow_of(r#"{"a": 5}"#);
    let shadow = shadow.unwrap();
    assert_eq!(shadow.len(), 3);
    assert_eq!(strict(&shadow[0]), Some(5));
    assert_eq!(lenient(&shadow[1]), Some(0));
    assert_eq!(optional(&shadow[2]), Some(None));
    assert!(sink.is_empty());
    assert_eq!(record_of(r#"{"a": 5}"#), Ok(vec![5, 0, 0]));
}

#[test]
fn shadow_with_malformed_lenient_field() {
    let (shadow, sink) = shadow_of(r#"{"a": 5, "b": "x", "c": 10}"#);
    let shadow = shadow.unwrap();
    assert_eq!(strict(&shadow[0]), Some(5));
    assert_eq!(lenient(&shadow[1]), Some(0));
    assert_eq!(optional(&shadow[2]), Some(Some(10)));
    assert_eq!(sink.len(), 1);
    assert_eq!(sink[0].error, "invalid type: string \"x\", expected usize");
    assert_eq!(record_of(r#"{"a": 5, "b": "x", "c": 10}"#), Ok(vec![5, 0, 10]));
}

#[test]
fn shadow_with_malformed_optional_field() {
    let (shadow, sink) = shadow_of(r#"{"a": 5, "b": 3, "c": "y"}"#);
    let shadow = shadow.unwrap();
    assert_eq!(strict(&shadow[0]), Some(5));
    assert_eq!(lenient(&shadow[1]), Some(3));
    assert_eq!(optional(&shadow[2]), Some(None));
    assert_eq!(sink.len(), 1);
    assert_eq!(sink[0].error, "invalid type: string \"y\", expected usize");
    assert_eq!(record_of(r#"{"a": 5, "b": 3, "c": "y"}"#), Ok(vec![5, 3, 0]));
}

#[test]
fn shadow_with_malformed_strict_field_fails() {
    let (shadow, _) = shadow_of(r#"{"a": "x"}"#);
    assert_eq!(
        shadow.err(),
        Some(DecodeError::RequiredField {
            name: "a".to_string(),
            cause: FieldFault::Malformed(Box::new(DecodeError::Rejected {
                message: "invalid type: string \"x\", expected usize".to_string()
            })),
        })
    );
}

#[test]
fn shadow_of_a_scalar_is_misshapen() {
    let (shadow, sink) = shadow_of("7");
    assert_eq!(shadow.err(), Some(DecodeError::Shape));
    assert!(sink.is_empty());
    assert_eq!(record_of("[1, 2, 3]"), Err(DecodeError::Shape));
}

#[test]
fn shadow_reports_fields_in_order_up_to_the_first_failure() {
    let fields = vec![
        field("first", FieldPolicy::Lenient),
        field("second", FieldPolicy::Optional),
        field("third", FieldPolicy::Strict),
        field("fourth", FieldPolicy::Lenient),
    ];
    let mut sink = Vec::new();
    let input = source(r#"{"first": "a", "second": "b", "fourth": "d"}"#);
    let shadow = decode_shadow::<usize, _, true>(&input, &fields, &decode_usize, &mut sink);
    assert_eq!(
        shadow.err(),
        Some(DecodeError::RequiredField { name: "third".to_string(), cause: FieldFault::Absent })
    );
    assert_eq!(sink.len(), 2);
    assert_eq!(sink[0].error, "invalid type: string \"a\", expected usize");
    assert_eq!(sink[1].error, "invalid type: string \"b\", expected usize");
}

#[test]
fn shadow_reports_the_first_of_two_failing_strict_fields() {
    let fields = vec![field("x", FieldPolicy::Strict), field("y", FieldPolicy::Strict)];
    let mut sink = Vec::new();
    let shadow = decode_shadow::<usize, _, true>(&source("{}"), &fields, &decode_usize, &mut sink);
    assert_eq!(
        shadow.err(),
        Some(DecodeError::RequiredField { name: "x".to_string(), cause: FieldFault::Absent })
    );
    let reversed = vec![field("y", FieldPolicy::Strict), field("x", FieldPolicy::Strict)];
    let shadow = decode_shadow::<usize, _, true>(&source("{}"), &reversed, &decode_usize, &mut sink);
    assert_eq!(
        shadow.err(),
        Some(DecodeError::RequiredField { name: "y".to_string(), cause: FieldFault::Absent })
    );
}

#[test]
fn record_without_strict_fields_decodes_from_empty_input() {
    let fields = vec![field("b", FieldPolicy::Lenient), field("c", FieldPolicy::Optional)];
    let mut sink = Vec::new();
    let record = decode_record::<usize, _, true>(&source("{}"), &fields, &decode_usize, &mut sink);
    assert_eq!(record, Ok(vec![0, 0]));
    assert!(sink.is_empty());
}

#[test]
fn record_without_fields_is_empty() {
    let mut sink = Vec::new();
    let record =
        decode_record::<usize, _, true>(&source(r#"{"a": 1}"#), &Vec::new(), &decode_usize, &mut sink);
    assert_eq!(record, Ok(Vec::new()));
}

#[test]
fn record_ignores_entries_that_are_no_field() {
    assert_eq!(record_of(r#"{"a": 1, "b": 2, "c": 3, "d": "extra"}"#), Ok(vec![1, 2, 3]));
}

#[test]
fn record_is_silent_when_reporting_is_off() {
    let mut sink = Vec::new();
    let input = source(r#"{"a": 5, "b": "x", "c": "y"}"#);
    let record =
        decode_record::<usize, _, false>(&input, &sample_fields(), &decode_usize, &mut sink);
    assert_eq!(record, Ok(vec![5, 0, 0]));
    assert!(sink.is_empty());
}

#[test]
fn reassemble_keeps_order_and_unwraps_each_field() {
    let shadow: Vec<ShadowValue<usize, true>> = vec![
        ShadowValue::Optional(Lenient(Some(9))),
        ShadowValue::Strict(1),
        ShadowValue::Optional(Lenient(None)),
        ShadowValue::Lenient(Lenient(4)),
    ];
    assert_eq!(reassemble(shadow), vec![9, 1, 0, 4]);
    let empty: Vec<ShadowValue<usize, true>> = Vec::new();
    assert_eq!(reassemble(empty), Vec::<usize>::new());
}

#[test]
fn into_field_unwraps_by_policy() {
    let strict: ShadowValue<usize, false> = ShadowValue::Strict(2);
    assert_eq!(strict.into_field(), 2);
    let lenient: ShadowValue<usize, false> = ShadowValue::Lenient(Lenient(3));
    assert_eq!(lenient.into_field(), 3);
    let none: ShadowValue<usize, false> = ShadowValue::Optional(Lenient(None));
    assert_eq!(none.into_field(), 0);
}

#[test]
fn decode_field_follows_the_policy() {
    let input = source(r#"{"n": "bad"}"#);
    let record = RecordInput::new(&input).unwrap();
    let mut sink = Vec::new();
    let strict: Result<ShadowValue<usize, true>, DecodeError> =
        decode_field(&record, &field("n", FieldPolicy::Strict), &decode_usize, &mut sink);
    assert!(strict.is_err());
    assert!(sink.is_empty());
    let lenient: ShadowValue<usize, true> =
        decode_field(&record, &field("n", FieldPolicy::Lenient), &decode_usize, &mut sink).unwrap();
    assert_eq!(lenient.into_field(), 0);
    assert_eq!(sink.len(), 1);
    let optional: ShadowValue<usize, true> =
        decode_field(&record, &field("n", FieldPolicy::Optional), &decode_usize, &mut sink).unwrap();
    assert_eq!(optional.into_field(), 0);
    assert_eq!(sink.len(), 2);
}

#[test]
fn redecoding_the_encoded_record_gives_the_same_record() {
    let mut sink = Vec::new();
    let input = source(r#"{"c": 10, "b": 3, "a": 5}"#);
    let first =
        decode_record::<usize, _, true>(&input, &sample_fields(), &decode_usize, &mut sink).unwrap();
    assert_eq!(first, vec![5, 3, 10]);
    let mut encoded = serde_json::Map::new();
    for (descriptor, value) in sample_fields().iter().zip(first.iter()) {
        encoded.insert(descriptor.name.clone(), Value::from(*value));
    }
    let text = Value::Object(encoded).to_string();
    let again =
        decode_record::<usize, _, true>(&source(&text), &sample_fields(), &decode_usize, &mut sink)
            .unwrap();
    assert_eq!(again, first);
    assert!(sink.is_empty());
}

#[test]
fn redecoding_keeps_an_optional_without_value() {
    let mut sink = Vec::new();
    let (first, _) = shadow_of(r#"{"a": 1, "b": 2}"#);
    let first = first.unwrap();
    assert_eq!(optional(&first[2]), Some(None));
    let encoded = source(r#"{"a": 1, "b": 2, "c": null}"#);
    let again =
        decode_shadow::<usize, _, true>(&encoded, &sample_fields(), &decode_usize, &mut sink)
            .unwrap();
    assert_eq!(strict(&again[0]), strict(&first[0]));
    assert_eq!(lenient(&again[1]), lenient(&first[1]));
    assert_eq!(optional(&again[2]), optional(&first[2]));
    assert!(sink.is_empty());
}
