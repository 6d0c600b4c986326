use kdl_value::error::Error;
use kdl_value::model::Scalar;
use kdl_value::value::Value;
use kdl_value::writer::{build_document, build_entry};
use kdl_value::{Span, KDL};

fn record(pairs: Vec<(&str, Value)>) -> Value {
    Value::Record {
        pairs: pairs.into_iter().map(|(k, v)| (k.to_string(), v)).collect(),
        span: Span::Unknown,
    }
}

fn num(val: i64) -> Value {
    Value::Int { val, span: Span::Unknown }
}

fn text(val: &str) -> Value {
    Value::Text { val: val.to_string(), span: Span::Unknown }
}

#[test]
fn a_list_value_writes_one_entry_per_element_in_order() {
    let v = record(vec![("foo", Value::List {
        vals: vec![num(1), num(2), num(3)],
        span: Span::Unknown,
    })]);
    let doc = build_document(&v).expect("a record of a list should write");
    assert_eq!(doc.nodes.len(), 1);
    assert_eq!(doc.nodes[0].name, "foo");
    let entries = &doc.nodes[0].entries;
    assert_eq!(entries.len(), 3);
    for (i, entry) in entries.iter().enumerate() {
        assert_eq!(entry.name, None);
        assert_eq!(entry.value, Scalar::Int(i as i64 + 1));
    }
    assert!(doc.nodes[0].children.is_none());
}

#[test]
fn a_single_key_record_writes_a_property_entry() {
    let v = record(vec![("a", record(vec![("key", num(5))]))]);
    let doc = build_document(&v).expect("a single-key record should write");
    let entries = &doc.nodes[0].entries;
    assert_eq!(entries.len(), 1);
    assert_eq!(entries[0].name.as_deref(), Some("key"));
    assert_eq!(entries[0].value, Scalar::Int(5));
}

#[test]
fn nothing_writes_a_node_without_entries() {
    let v = record(vec![("a", Value::Nothing { span: Span::Unknown })]);
    let doc = build_document(&v).expect("nothing should write");
    assert!(doc.nodes[0].entries.is_empty());
    assert!(doc.nodes[0].children.is_none());
}

#[test]
fn a_scalar_writes_one_positional_entry() {
    let v = record(vec![("a", text("x"))]);
    let doc = build_document(&v).expect("a scalar should write");
    let entries = &doc.nodes[0].entries;
    assert_eq!(entries.len(), 1);
    assert_eq!(entries[0].name, None);
    assert_eq!(entries[0].value, Scalar::Text("x".to_string()));
}

#[test]
fn a_non_record_top_level_fails_with_input_type() {
    let r = KDL.to(&num(3));
    assert!(matches!(r, Err(Error::InputType { .. })));
    let r = build_document(&text("x"));
    assert!(matches!(r, Err(Error::InputType { .. })));
}

#[test]
fn a_two_key_record_at_entry_position_fails_with_invalid_entry() {
    let two_keys = record(vec![("k1", num(1)), ("k2", num(2))]);
    let r = build_entry(&two_keys);
    assert!(matches!(r, Err(Error::InvalidEntry { .. })));
}

#[test]
fn a_zero_key_record_at_entry_position_fails_with_invalid_entry() {
    let r = build_entry(&record(vec![]));
    assert!(matches!(r, Err(Error::InvalidEntry { .. })));
}

#[test]
fn a_list_at_entry_position_fails_with_unsupported_shape() {
    let inner_list = Value::List { vals: vec![num(1)], span: Span::Unknown };
    let r = build_entry(&inner_list);
    assert!(matches!(r, Err(Error::UnsupportedShape { .. })));
}

#[test]
fn a_multi_key_record_as_node_body_fails_with_unsupported_shape() {
    let v = record(vec![("a", record(vec![("k1", num(1)), ("k2", num(2))]))]);
    let r = build_document(&v);
    assert!(matches!(r, Err(Error::UnsupportedShape { .. })));
}

#[test]
fn a_nested_record_inside_a_property_fails_with_unsupported_shape() {
    let v = record(vec![("a", record(vec![("k", record(vec![("deep", num(1))]))]))]);
    let r = build_document(&v);
    assert!(matches!(r, Err(Error::UnsupportedShape { .. })));
}

#[test]
fn writing_renders_kdl_text() {
    let v = record(vec![("foo", Value::List {
        vals: vec![num(1), num(2), num(3)],
        span: Span::Unknown,
    })]);
    let s = KDL.to(&v).expect("should render");
    assert_eq!(s, "foo 1 2 3\n");
}

#[test]
fn writing_a_property_renders_a_named_argument() {
    let v = record(vec![("a", record(vec![("key", num(1))]))]);
    let s = KDL.to(&v).expect("should render");
    assert_eq!(s, "a key=1\n");
}

#[test]
fn null_writes_back_to_null_text() {
    let v = record(vec![("a", Value::Nothing { span: Span::Unknown })]);
    let s = KDL.to(&v).expect("should render");
    assert_eq!(s, "a\n");
    let v = record(vec![("a", Value::List {
        vals: vec![Value::Nothing { span: Span::Unknown }, num(1)],
        span: Span::Unknown,
    })]);
    let s = KDL.to(&v).expect("should render");
    assert_eq!(s, "a null 1\n");
}

#[test]
fn an_empty_record_writes_an_empty_document() {
    let s = KDL.to(&record(vec![])).expect("an empty record should write");
    assert_eq!(s, "");
}

#[test]
fn errors_stop_at_the_first_bad_pair() {
    let v = record(vec![("good", num(1)), ("bad", record(vec![]))]);
    let r = build_document(&v);
    assert!(matches!(r, Err(Error::UnsupportedShape { .. })));
}
