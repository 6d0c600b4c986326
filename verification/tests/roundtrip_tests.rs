use kdl_value::value::Value;
use kdl_value::KDL;

/// Structural equality of values, spans disregarded.
fn same_shape(a: &Value, b: &Value) -> bool {
    match (a, b) {
        (Value::Nothing { .. }, Value::Nothing { .. }) => true,
        (Value::Bool { val: x, .. }, Value::Bool { val: y, .. }) => x == y,
        (Value::Int { val: x, .. }, Value::Int { val: y, .. }) => x == y,
        (Value::Float { val: x, .. }, Value::Float { val: y, .. }) => x == y,
        (Value::Text { val: x, .. }, Value::Text { val: y, .. }) => x == y,
        (Value::List { vals: xs, .. }, Value::List { vals: ys, .. }) => {
            xs.len() == ys.len() && xs.iter().zip(ys.iter()).all(|(x, y)| same_shape(x, y))
        }
        (Value::Record { pairs: xs, .. }, Value::Record { pairs: ys, .. }) => {
            xs.len() == ys.len()
                && xs
                    .iter()
                    .zip(ys.iter())
                    .all(|(x, y)| x.0 == y.0 && same_shape(&x.1, &y.1))
        }
        _ => false,
    }
}

fn roundtrip(text: &str) {
    let first = KDL.from(text).expect("the input should parse");
    let written = KDL.to(&first).expect("the read value should write");
    let second = KDL.from(&written).expect("the written text should parse");
    assert!(
        same_shape(&first, &second),
        "round trip changed the value:\nfirst: {:?}\nwritten: {:?}\nsecond: {:?}",
        first,
        written,
        second
    );
}

#[test]
fn two_entry_node_round_trips() {
    let text = "node \"a\" key=1";
    let first = KDL.from(text).expect("should parse");
    match &first {
        Value::Record { pairs, .. } => {
            assert_eq!(pairs.len(), 1);
            assert_eq!(pairs[0].0, "node");
            match &pairs[0].1 {
                Value::List { vals, .. } => {
                    assert_eq!(vals.len(), 2);
                    match &vals[0] {
                        Value::Text { val, .. } => assert_eq!(val, "a"),
                        other => panic!("expected text first, got {:?}", other),
                    }
                    match &vals[1] {
                        Value::Record { pairs: inner, .. } => {
                            assert_eq!(inner.len(), 1);
                            assert_eq!(inner[0].0, "key");
                            assert!(matches!(inner[0].1, Value::Int { val: 1, .. }));
                        }
                        other => panic!("expected a property record, got {:?}", other),
                    }
                }
                other => panic!("expected a two-element list, got {:?}", other),
            }
        }
        other => panic!("expected a record, got {:?}", other),
    }
    roundtrip(text);
}

#[test]
fn scalars_round_trip() {
    roundtrip("a \"x\"");
    roundtrip("b 42");
    roundtrip("c 2.5");
    roundtrip("d true");
    roundtrip("e null");
    roundtrip("f");
}

#[test]
fn notations_round_trip_as_decimal() {
    let first = KDL.from("n 0b101 0o5 5 0x5").expect("should parse");
    let written = KDL.to(&first).expect("should write");
    assert_eq!(written, "n 5 5 5 5\n");
    roundtrip("n 0b101 0o5 5 0x5");
}

#[test]
fn properties_round_trip() {
    roundtrip("a key=1 other=\"two\" flag=true none=null");
}

#[test]
fn several_nodes_round_trip_in_order() {
    roundtrip("one 1\ntwo \"2\"\nthree key=3");
}

#[test]
fn duplicate_names_round_trip() {
    roundtrip("a 1\na 2");
}

#[test]
fn one_node_children_round_trip_as_property() {
    // A children block collapses to a record; written back, its one pair
    // becomes a property entry. The shapes agree even though the text does
    // not.
    let first = KDL.from("a {\n  b 1\n}").expect("should parse");
    let written = KDL.to(&first).expect("should write");
    assert_eq!(written, "a b=1\n");
    let second = KDL.from(&written).expect("should parse again");
    assert!(same_shape(&first, &second));
}

#[test]
fn mixed_entries_round_trip() {
    roundtrip("node 1 \"two\" three=3 4.5 five=null");
}
