use ftd_resolve::ast::{BodyValue, HeaderValue, VariableValue};
use ftd_resolve::context::{DocContext, Field, RecordDefinition};
use ftd_resolve::error::ErrorKind;
use ftd_resolve::kind::{Kind, KindData};
use ftd_resolve::literal::{is_decimal_literal, parse_boolean, parse_integer};
use ftd_resolve::text::{split_char, strip_prefix};
use ftd_resolve::value::{PropertyValue, Value};

fn kd(kind: Kind) -> KindData {
    KindData { kind, caption: false, body: false }
}

fn list_of(kind: Kind) -> Kind {
    Kind::List { kind: Box::new(kind) }
}

fn optional(kind: Kind) -> Kind {
    Kind::Optional { kind: Box::new(kind) }
}

fn s(text: &str, line: usize) -> VariableValue {
    VariableValue::String { value: text.to_string(), line_number: line }
}

fn header(key: &str, value: VariableValue) -> HeaderValue {
    HeaderValue { key: key.to_string(), value, line_number: 0 }
}

fn record_node(caption: Option<VariableValue>, headers: Vec<HeaderValue>, body: Option<&str>) -> VariableValue {
    VariableValue::Record {
        name: "person".to_string(),
        caption: Box::new(caption),
        headers,
        body: body.map(|b| BodyValue { value: b.to_string(), line_number: 9 }),
        line_number: 4,
    }
}

fn doc() -> DocContext {
    DocContext {
        name: "home".to_string(),
        variables: vec![
            ("count".to_string(), kd(Kind::Integer)),
            ("title".to_string(), kd(Kind::String)),
        ],
        records: vec![
            RecordDefinition {
                name: "person".to_string(),
                fields: vec![
                    Field { name: "name".to_string(), kind: KindData { kind: Kind::String, caption: true, body: false } },
                    Field { name: "age".to_string(), kind: kd(Kind::Integer) },
                ],
            },
            RecordDefinition {
                name: "note".to_string(),
                fields: vec![
                    Field { name: "text".to_string(), kind: KindData { kind: Kind::String, caption: false, body: true } },
                    Field { name: "tag".to_string(), kind: kd(optional(Kind::String)) },
                    Field { name: "scores".to_string(), kind: kd(list_of(Kind::Integer)) },
                ],
            },
            RecordDefinition {
                name: "loop".to_string(),
                fields: vec![Field { name: "next".to_string(), kind: kd(Kind::Record { name: "loop".to_string() }) }],
            },
        ],
        max_depth: 8,
    }
}

fn value_of(p: PropertyValue) -> Value {
    match p {
        PropertyValue::Value { value, .. } => value,
        PropertyValue::Reference { .. } => panic!("expected a value"),
    }
}

fn err_kind(r: Result<PropertyValue, ftd_resolve::error::Error>) -> ErrorKind {
    match r {
        Err(e) => e.kind,
        Ok(_) => panic!("expected an error"),
    }
}

#[test]
fn integer_literal_resolves() {
    let d = doc();
    let v = value_of(PropertyValue::from_string("42", &d, Some(&kd(Kind::Integer)), 3).unwrap());
    assert!(matches!(v, Value::Integer { value: 42 }));
    let v = value_of(PropertyValue::from_string("-9223372036854775808", &d, Some(&kd(Kind::Integer)), 3).unwrap());
    assert!(matches!(v, Value::Integer { value: i64::MIN }));
}

#[test]
fn string_literal_resolves_to_its_text() {
    let d = doc();
    let r = PropertyValue::from_ast_value_with_kind(&s("hello world", 2), &d, Some(&kd(Kind::String))).unwrap();
    match r {
        PropertyValue::Value { value: Value::String { text }, line_number } => {
            assert_eq!(text, "hello world");
            assert_eq!(line_number, 2);
        }
        _ => panic!("expected a string value"),
    }
}

#[test]
fn decimal_literal_keeps_numeral() {
    let d = doc();
    let v = value_of(PropertyValue::from_string("1.5e3", &d, Some(&kd(Kind::Decimal)), 1).unwrap());
    match v {
        Value::Decimal { text } => {
            assert_eq!(text, "1.5e3");
            assert_eq!(text.parse::<f64>().unwrap(), 1500.0_f64);
        }
        _ => panic!("expected a decimal"),
    }
}

#[test]
fn boolean_literal_only_canonical() {
    let d = doc();
    let v = value_of(PropertyValue::from_string("true", &d, Some(&kd(Kind::Boolean)), 1).unwrap());
    assert!(matches!(v, Value::Boolean { value: true }));
    let v = value_of(PropertyValue::from_string("false", &d, Some(&kd(Kind::Boolean)), 1).unwrap());
    assert!(matches!(v, Value::Boolean { value: false }));
    assert_eq!(err_kind(PropertyValue::from_string("yes", &d, Some(&kd(Kind::Boolean)), 1)), ErrorKind::InvalidLiteral);
    assert_eq!(err_kind(PropertyValue::from_string("True", &d, Some(&kd(Kind::Boolean)), 1)), ErrorKind::InvalidLiteral);
}

#[test]
fn invalid_integer_literal_fails_with_text_and_line() {
    let d = doc();
    let e = PropertyValue::from_string("12a", &d, Some(&kd(Kind::Integer)), 7).err().unwrap();
    assert_eq!(e.kind, ErrorKind::InvalidLiteral);
    assert_eq!(e.subject, "12a");
    assert_eq!(e.doc_id, "home");
    assert_eq!(e.line_number, 7);
    assert_eq!(err_kind(PropertyValue::from_string("99999999999999999999", &d, Some(&kd(Kind::Integer)), 7)), ErrorKind::InvalidLiteral);
}

#[test]
fn literal_without_expected_kind_fails() {
    let d = doc();
    assert_eq!(err_kind(PropertyValue::from_string("5", &d, None, 1)), ErrorKind::MissingExpectedKind);
}

#[test]
fn declared_reference_resolves_with_or_without_expected_kind() {
    let d = doc();
    for expected in [None, Some(kd(Kind::Integer))] {
        let r = PropertyValue::from_string("$count", &d, expected.as_ref(), 5).unwrap();
        match &r {
            PropertyValue::Reference { name, kind, line_number } => {
                assert_eq!(name, "count");
                assert!(matches!(kind.kind, Kind::Integer));
                assert_eq!(*line_number, 5);
            }
            _ => panic!("expected a reference"),
        }
        assert!(matches!(r.kind(), Kind::Integer));
    }
}

#[test]
fn reference_with_other_expected_kind_is_mismatch() {
    let d = doc();
    assert_eq!(err_kind(PropertyValue::from_string("$count", &d, Some(&kd(Kind::String)), 5)), ErrorKind::KindMismatch);
}

#[test]
fn undeclared_reference_is_lookup_failure() {
    let d = doc();
    let e = PropertyValue::from_string("$missing", &d, Some(&kd(Kind::String)), 5).err().unwrap();
    assert_eq!(e.kind, ErrorKind::LookupFailure);
    assert_eq!(e.subject, "missing");
}

#[test]
fn reference_from_ast_value_rejects_plain_text() {
    let d = doc();
    let e = PropertyValue::reference_from_ast_value(&s("plain", 1), &d, None).err().unwrap();
    assert_eq!(e.kind, ErrorKind::NotAReference);
    let r = PropertyValue::reference_from_ast_value(&s("$title", 1), &d, None).unwrap();
    assert!(matches!(r, PropertyValue::Reference { ref name, .. } if name == "title"));
    let e = PropertyValue::reference_from_ast_value(&s("$$title", 1), &d, None).err().unwrap();
    assert_eq!(e.kind, ErrorKind::LookupFailure);
    assert_eq!(e.subject, "$title");
}

#[test]
fn sentinel_is_stripped_once() {
    let mut d = doc();
    d.variables.push(("$x".to_string(), kd(Kind::Boolean)));
    let r = PropertyValue::from_ast_value_with_kind(&s("$$x", 2), &d, Some(&kd(Kind::Boolean))).unwrap();
    assert!(matches!(r, PropertyValue::Reference { ref name, .. } if name == "$x"));
    assert_eq!(
        err_kind(PropertyValue::from_ast_value_with_kind(&s("$$x", 2), &d, Some(&kd(Kind::Integer)))),
        ErrorKind::KindMismatch
    );
    assert_eq!(err_kind(PropertyValue::from_string("$$count", &d, None, 2)), ErrorKind::LookupFailure);
}

fn int_list(items: &[&str]) -> VariableValue {
    VariableValue::List {
        value: items.iter().enumerate().map(|(i, t)| ("integer".to_string(), s(t, 10 + i))).collect(),
        line_number: 10,
    }
}

fn integers(v: Value) -> Vec<i64> {
    match v {
        Value::List { data, kind } => {
            assert!(matches!(kind.kind, Kind::Integer));
            data.into_iter()
                .map(|p| match value_of(p) {
                    Value::Integer { value } => value,
                    _ => panic!("expected an integer"),
                })
                .collect()
        }
        _ => panic!("expected a list"),
    }
}

#[test]
fn integer_list_keeps_order() {
    let d = doc();
    let k = kd(list_of(Kind::Integer));
    let v = value_of(PropertyValue::from_ast_value_with_kind(&int_list(&["1", "2", "3"]), &d, Some(&k)).unwrap());
    assert_eq!(integers(v), vec![1, 2, 3]);
    let perms: [[&str; 3]; 6] = [
        ["1", "2", "3"], ["1", "3", "2"], ["2", "1", "3"], ["2", "3", "1"], ["3", "1", "2"], ["3", "2", "1"],
    ];
    for p in perms.iter() {
        let v = value_of(PropertyValue::from_ast_value_with_kind(&int_list(p), &d, Some(&k)).unwrap());
        let expected: Vec<i64> = p.iter().map(|t| t.parse().unwrap()).collect();
        assert_eq!(integers(v), expected);
    }
}

#[test]
fn list_kind_wraps_element_kind() {
    let d = doc();
    let k = kd(list_of(Kind::Integer));
    let r = PropertyValue::from_ast_value_with_kind(&int_list(&["4"]), &d, Some(&k)).unwrap();
    match r.kind() {
        Kind::List { kind } => assert!(matches!(*kind, Kind::Integer)),
        _ => panic!("expected a list kind"),
    }
}

#[test]
fn list_entry_with_wrong_label_is_mismatch() {
    let d = doc();
    let node = VariableValue::List { value: vec![("string".to_string(), s("1", 1))], line_number: 1 };
    let r = PropertyValue::from_ast_value_with_kind(&node, &d, Some(&kd(list_of(Kind::Integer))));
    assert_eq!(err_kind(r), ErrorKind::KindMismatch);
    let node = VariableValue::List { value: vec![("whatever".to_string(), s("1", 1))], line_number: 1 };
    let r = PropertyValue::from_ast_value_with_kind(&node, &d, Some(&kd(list_of(Kind::Integer))));
    assert_eq!(err_kind(r), ErrorKind::LookupFailure);
}

fn person() -> KindData {
    kd(Kind::Record { name: "person".to_string() })
}

#[test]
fn required_field_with_no_header_fails() {
    let d = doc();
    let node = record_node(Some(s("Ann", 4)), vec![], None);
    let e = PropertyValue::from_ast_value_with_kind(&node, &d, Some(&person())).err().unwrap();
    assert_eq!(e.kind, ErrorKind::AmbiguousOrMissingField { found: 0 });
    assert_eq!(e.subject, "age");
}

#[test]
fn required_field_with_one_header_succeeds() {
    let d = doc();
    let node = record_node(Some(s("Ann", 4)), vec![header("age", s("30", 5))], None);
    let v = value_of(PropertyValue::from_ast_value_with_kind(&node, &d, Some(&person())).unwrap());
    match v {
        Value::Record { name, fields } => {
            assert_eq!(name, "person");
            assert_eq!(fields.len(), 2);
            assert_eq!(fields[0].0, "name");
            assert!(matches!(&fields[0].1, PropertyValue::Value { value: Value::String { text }, .. } if text == "Ann"));
            assert_eq!(fields[1].0, "age");
            assert!(matches!(&fields[1].1, PropertyValue::Value { value: Value::Integer { value: 30 }, .. }));
        }
        _ => panic!("expected a record"),
    }
}

#[test]
fn required_field_with_two_headers_fails() {
    let d = doc();
    let node = record_node(Some(s("Ann", 4)), vec![header("age", s("30", 5)), header("age", s("31", 6))], None);
    let e = PropertyValue::from_ast_value_with_kind(&node, &d, Some(&person())).err().unwrap();
    assert_eq!(e.kind, ErrorKind::AmbiguousOrMissingField { found: 2 });
}

#[test]
fn caption_field_falls_back_to_header() {
    let d = doc();
    let node = record_node(None, vec![header("name", s("Bo", 5)), header("age", s("3", 6))], None);
    let v = value_of(PropertyValue::from_ast_value_with_kind(&node, &d, Some(&person())).unwrap());
    match v {
        Value::Record { fields, .. } => {
            assert!(matches!(&fields[0].1, PropertyValue::Value { value: Value::String { text }, .. } if text == "Bo"));
        }
        _ => panic!("expected a record"),
    }
}

#[test]
fn optional_field_without_header_is_none() {
    let d = doc();
    let node = record_node(None, vec![], Some("some body"));
    let note = kd(Kind::Record { name: "note".to_string() });
    let v = value_of(PropertyValue::from_ast_value_with_kind(&node, &d, Some(&note)).unwrap());
    match v {
        Value::Record { fields, .. } => {
            assert_eq!(fields.len(), 3);
            match &fields[0].1 {
                PropertyValue::Value { value: Value::String { text }, line_number } => {
                    assert_eq!(text, "some body");
                    assert_eq!(*line_number, 9);
                }
                _ => panic!("expected the body text"),
            }
            match &fields[1].1 {
                PropertyValue::Value { value: Value::Optional { data, kind }, .. } => {
                    assert!(data.is_none());
                    assert!(matches!(kind.kind, Kind::String));
                }
                _ => panic!("expected an absent optional"),
            }
            assert!(matches!(fields[1].1.kind(), Kind::Optional { .. }));
            match &fields[2].1 {
                PropertyValue::Value { value: Value::List { data, .. }, .. } => assert!(data.is_empty()),
                _ => panic!("expected an empty list"),
            }
        }
        _ => panic!("expected a record"),
    }
}

#[test]
fn list_field_gathers_headers() {
    let d = doc();
    let node = record_node(
        None,
        vec![
            header("scores", VariableValue::List {
                value: vec![("integer".to_string(), s("1", 1)), ("integer".to_string(), s("2", 2))],
                line_number: 1,
            }),
            header("scores", VariableValue::List { value: vec![("integer".to_string(), s("3", 3))], line_number: 3 }),
        ],
        Some("b"),
    );
    let note = kd(Kind::Record { name: "note".to_string() });
    let v = value_of(PropertyValue::from_ast_value_with_kind(&node, &d, Some(&note)).unwrap());
    match v {
        Value::Record { fields, .. } => match &fields[2].1 {
            PropertyValue::Value { value, .. } => {
                let items = match value {
                    Value::List { data, .. } => data.len(),
                    _ => 0,
                };
                assert_eq!(items, 3);
            }
            _ => panic!("expected a list"),
        },
        _ => panic!("expected a record"),
    }
}

#[test]
fn unknown_record_type_is_lookup_failure() {
    let d = doc();
    let node = record_node(None, vec![], None);
    let r = PropertyValue::from_ast_value_with_kind(&node, &d, Some(&kd(Kind::Record { name: "nope".to_string() })));
    assert_eq!(err_kind(r), ErrorKind::LookupFailure);
}

#[test]
fn self_nested_record_hits_depth_limit() {
    let mut d = doc();
    d.max_depth = 3;
    let mut node = VariableValue::Record {
        name: "loop".to_string(),
        caption: Box::new(None),
        headers: vec![],
        body: None,
        line_number: 1,
    };
    for _ in 0..5 {
        node = VariableValue::Record {
            name: "loop".to_string(),
            caption: Box::new(None),
            headers: vec![header("next", node)],
            body: None,
            line_number: 1,
        };
    }
    let r = PropertyValue::from_ast_value_with_kind(&node, &d, Some(&kd(Kind::Record { name: "loop".to_string() })));
    assert_eq!(err_kind(r), ErrorKind::DepthExceeded);
}

#[test]
fn unsupported_combinations_are_reported() {
    let d = doc();
    assert_eq!(
        err_kind(PropertyValue::from_string("5", &d, Some(&kd(optional(Kind::Integer))), 1)),
        ErrorKind::UnsupportedKindCombination
    );
    assert_eq!(
        err_kind(PropertyValue::from_ast_value_with_kind(&int_list(&["1"]), &d, Some(&kd(Kind::String)))),
        ErrorKind::UnsupportedKindCombination
    );
    assert_eq!(
        err_kind(PropertyValue::from_string("x", &d, Some(&person()), 1)),
        ErrorKind::UnsupportedKindCombination
    );
}

#[test]
fn value_kind_follows_variant() {
    assert!(matches!(Value::UI { name: "x".to_string() }.kind(), Kind::UI));
    assert!(matches!(Value::Object { values: vec![] }.kind(), Kind::Object));
    match (Value::Record { name: "r".to_string(), fields: vec![] }).kind() {
        Kind::Record { name } => assert_eq!(name, "r"),
        _ => panic!("expected a record kind"),
    }
}

#[test]
fn kind_equality_is_structural() {
    assert!(list_of(Kind::Integer).same(&list_of(Kind::Integer)));
    assert!(!list_of(Kind::Integer).same(&list_of(Kind::String)));
    assert!(Kind::Record { name: "a".to_string() }.same(&Kind::Record { name: "a".to_string() }));
    assert!(!Kind::Record { name: "a".to_string() }.same(&Kind::Record { name: "b".to_string() }));
    assert!(!optional(Kind::Integer).same(&list_of(Kind::Integer)));
}

#[test]
fn literal_grammars() {
    assert_eq!(parse_integer("+17"), Some(17));
    assert_eq!(parse_integer("-"), None);
    assert_eq!(parse_integer(" 1"), None);
    for t in ["0", "-0", "007", "9223372036854775807", "-9223372036854775808", "-42", "+0", "12a", "", "+", "1_000",
              "9223372036854775808", "-9223372036854775809", "99999999999999999999", "٣"] {
        assert_eq!(parse_integer(t), t.parse::<i64>().ok(), "{}", t);
    }
    assert_eq!(parse_boolean("false"), Some(false));
    for ok in ["1", "1.", ".5", "-2.5E-3", "+inf", "NaN", "Infinity", "7e10"] {
        assert!(is_decimal_literal(ok), "{}", ok);
        assert!(ok.parse::<f64>().is_ok());
    }
    for bad in ["", ".", "1..2", "e5", "1e", "1e+", "abc", "1.5x", "in"] {
        assert!(!is_decimal_literal(bad), "{}", bad);
        assert!(bad.parse::<f64>().is_err());
    }
}

#[test]
fn text_helpers() {
    assert_eq!(split_char("a,,b", ','), vec!["a".to_string(), "".to_string(), "b".to_string()]);
    assert_eq!(split_char("", ','), vec!["".to_string()]);
    assert_eq!(strip_prefix("inner left", "inner "), Some("left".to_string()));
    assert_eq!(strip_prefix("left", "inner "), None);
}

#[test]
fn error_message_names_document_and_subject() {
    let d = doc();
    let e = PropertyValue::from_string("$missing", &d, None, 5).err().unwrap();
    assert_eq!(e.message(), "home: not found: missing");
}
