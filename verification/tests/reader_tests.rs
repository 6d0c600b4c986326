use kdl_value::error::Error;
use kdl_value::value::Value;
use kdl_value::{Span, KDL};

fn read(text: &str) -> Value {
    KDL.from(text).expect("text should parse")
}

#[test]
fn empty_node_reads_to_nothing() {
    let v = read("a");
    match &v {
        Value::Record { pairs, .. } => {
            assert_eq!(pairs.len(), 1);
            assert_eq!(pairs[0].0, "a");
            assert!(matches!(pairs[0].1, Value::Nothing { .. }));
        }
        other => panic!("expected a record, got {:?}", other),
    }
}

#[test]
fn single_positional_entry_is_not_wrapped() {
    let v = read("a \"x\"");
    match &v {
        Value::Record { pairs, .. } => match &pairs[0].1 {
            Value::Text { val, .. } => assert_eq!(val, "x"),
            other => panic!("expected a bare string, got {:?}", other),
        },
        other => panic!("expected a record, got {:?}", other),
    }
}

#[test]
fn two_positional_entries_read_to_a_list() {
    let v = read("a 1 2");
    match &v {
        Value::Record { pairs, .. } => match &pairs[0].1 {
            Value::List { vals, .. } => {
                assert_eq!(vals.len(), 2);
                assert!(matches!(vals[0], Value::Int { val: 1, .. }));
                assert!(matches!(vals[1], Value::Int { val: 2, .. }));
            }
            other => panic!("expected a list, got {:?}", other),
        },
        other => panic!("expected a record, got {:?}", other),
    }
}

#[test]
fn property_entry_reads_to_single_key_record() {
    let v = read("a key=5");
    match &v {
        Value::Record { pairs, .. } => match &pairs[0].1 {
            Value::Record { pairs: inner, .. } => {
                assert_eq!(inner.len(), 1);
                assert_eq!(inner[0].0, "key");
                assert!(matches!(inner[0].1, Value::Int { val: 5, .. }));
            }
            other => panic!("expected a single-key record, got {:?}", other),
        },
        other => panic!("expected a record, got {:?}", other),
    }
}

#[test]
fn integer_notations_all_read_to_the_same_integer() {
    let v = read("n 0b101 0o5 5 0x5");
    match &v {
        Value::Record { pairs, .. } => match &pairs[0].1 {
            Value::List { vals, .. } => {
                assert_eq!(vals.len(), 4);
                for val in vals {
                    assert!(matches!(val, Value::Int { val: 5, .. }));
                }
            }
            other => panic!("expected a list, got {:?}", other),
        },
        other => panic!("expected a record, got {:?}", other),
    }
}

#[test]
fn null_reads_to_nothing() {
    let v = read("a null");
    match &v {
        Value::Record { pairs, .. } => {
            assert!(matches!(pairs[0].1, Value::Nothing { .. }));
        }
        other => panic!("expected a record, got {:?}", other),
    }
}

#[test]
fn booleans_and_floats_read_to_their_variants() {
    let v = read("a true 2.5");
    match &v {
        Value::Record { pairs, .. } => match &pairs[0].1 {
            Value::List { vals, .. } => {
                assert!(matches!(vals[0], Value::Bool { val: true, .. }));
                match &vals[1] {
                    Value::Float { val, .. } => {
                        assert_eq!(*val, kdl::KdlValue::Base10Float(2.5));
                    }
                    other => panic!("expected a float, got {:?}", other),
                }
            }
            other => panic!("expected a list, got {:?}", other),
        },
        other => panic!("expected a record, got {:?}", other),
    }
}

#[test]
fn node_order_is_key_order() {
    let v = read("one 1\ntwo 2\nthree 3");
    match &v {
        Value::Record { pairs, .. } => {
            let keys: Vec<&str> = pairs.iter().map(|p| p.0.as_str()).collect();
            assert_eq!(keys, vec!["one", "two", "three"]);
        }
        other => panic!("expected a record, got {:?}", other),
    }
}

#[test]
fn duplicate_node_names_are_kept_in_order() {
    let v = read("a 1\na 2");
    match &v {
        Value::Record { pairs, .. } => {
            assert_eq!(pairs.len(), 2);
            assert_eq!(pairs[0].0, "a");
            assert_eq!(pairs[1].0, "a");
            assert!(matches!(pairs[0].1, Value::Int { val: 1, .. }));
            assert!(matches!(pairs[1].1, Value::Int { val: 2, .. }));
        }
        other => panic!("expected a record, got {:?}", other),
    }
}

#[test]
fn children_alone_read_to_the_children_record() {
    let v = read("a {\n  b 1\n}");
    match &v {
        Value::Record { pairs, .. } => match &pairs[0].1 {
            Value::Record { pairs: inner, .. } => {
                assert_eq!(inner.len(), 1);
                assert_eq!(inner[0].0, "b");
                assert!(matches!(inner[0].1, Value::Int { val: 1, .. }));
            }
            other => panic!("expected the children record, got {:?}", other),
        },
        other => panic!("expected a record, got {:?}", other),
    }
}

#[test]
fn entries_and_children_read_to_a_list_with_children_last() {
    let v = read("a 1 2 {\n  b 3\n}");
    match &v {
        Value::Record { pairs, .. } => match &pairs[0].1 {
            Value::List { vals, .. } => {
                assert_eq!(vals.len(), 3);
                assert!(matches!(vals[0], Value::Int { val: 1, .. }));
                assert!(matches!(vals[1], Value::Int { val: 2, .. }));
                match &vals[2] {
                    Value::Record { pairs: inner, .. } => assert_eq!(inner[0].0, "b"),
                    other => panic!("expected the children record, got {:?}", other),
                }
            }
            other => panic!("expected a list, got {:?}", other),
        },
        other => panic!("expected a record, got {:?}", other),
    }
}

#[test]
fn document_span_covers_the_text() {
    let v = read("a 1");
    assert_eq!(v.span(), Span::Known { offset: 0, len: 3 });
}

#[test]
fn malformed_text_fails_with_a_parse_error() {
    let r = KDL.from("node \"unterminated");
    match r {
        Err(Error::Parse { msg, .. }) => assert!(!msg.is_empty()),
        other => panic!("expected a parse error, got {:?}", other),
    }
}

#[test]
fn empty_text_reads_to_an_empty_record() {
    let v = read("");
    match &v {
        Value::Record { pairs, .. } => assert!(pairs.is_empty()),
        other => panic!("expected an empty record, got {:?}", other),
    }
}

#[test]
fn raw_strings_read_to_text() {
    let v = read("a r\"raw\"");
    match &v {
        Value::Record { pairs, .. } => match &pairs[0].1 {
            Value::Text { val, .. } => assert_eq!(val, "raw"),
            other => panic!("expected text, got {:?}", other),
        },
        other => panic!("expected a record, got {:?}", other),
    }
}
