use libsql_native::add;
use libsql_native::error::BridgeError;
use libsql_native::result::column_labels;
use libsql_native::value::{decode, decode_params, encode, DbValue, HostTerm};

fn round_trip(v: &DbValue) -> DbValue {
    decode(&encode(v)).expect("an encoded value decodes")
}

#[test]
fn round_trip_null() {
    assert!(matches!(round_trip(&DbValue::Null), DbValue::Null));
}

#[test]
fn round_trip_integer() {
    assert!(matches!(round_trip(&DbValue::Integer(-42)), DbValue::Integer(-42)));
    assert!(matches!(round_trip(&DbValue::Integer(i64::MAX)), DbValue::Integer(i64::MAX)));
}

#[test]
fn round_trip_real() {
    let bits = 1.5f64.to_bits();
    match round_trip(&DbValue::Real(bits)) {
        DbValue::Real(b) => assert_eq!(f64::from_bits(b), 1.5),
        other => panic!("unexpected {:?}", other),
    }
}

#[test]
fn round_trip_text() {
    match round_trip(&DbValue::Text("héllo".to_string())) {
        DbValue::Text(s) => assert_eq!(s, "héllo"),
        other => panic!("unexpected {:?}", other),
    }
}

#[test]
fn round_trip_blob() {
    match round_trip(&DbValue::Blob(vec![0, 1, 255])) {
        DbValue::Blob(b) => assert_eq!(b, vec![0, 1, 255]),
        other => panic!("unexpected {:?}", other),
    }
}

#[test]
fn null_encodes_as_nil_atom() {
    match encode(&DbValue::Null) {
        HostTerm::Atom(s) => assert_eq!(s, "nil"),
        other => panic!("unexpected {:?}", other),
    }
}

#[test]
fn boolean_collapses_to_integer() {
    assert!(matches!(decode(&HostTerm::Boolean(true)), Ok(DbValue::Integer(1))));
    assert!(matches!(decode(&HostTerm::Boolean(false)), Ok(DbValue::Integer(0))));
    // The collapse is one way: the integer comes back as an integer term.
    assert!(matches!(encode(&DbValue::Integer(1)), HostTerm::Integer(1)));
    assert!(matches!(encode(&DbValue::Integer(0)), HostTerm::Integer(0)));
}

#[test]
fn atom_decodes_to_its_text() {
    match decode(&HostTerm::Atom("foo".to_string())) {
        Ok(DbValue::Text(s)) => assert_eq!(s, "foo"),
        other => panic!("unexpected {:?}", other),
    }
}

#[test]
fn nil_atom_decodes_to_null() {
    assert!(matches!(decode(&HostTerm::Atom("nil".to_string())), Ok(DbValue::Null)));
    // Only the exact spelling is nil.
    assert!(matches!(decode(&HostTerm::Atom("nill".to_string())), Ok(DbValue::Text(_))));
    assert!(matches!(decode(&HostTerm::Atom("Nil".to_string())), Ok(DbValue::Text(_))));
}

#[test]
fn scalar_terms_decode_by_kind() {
    assert!(matches!(decode(&HostTerm::Integer(7)), Ok(DbValue::Integer(7))));
    match decode(&HostTerm::Float(2.25f64.to_bits())) {
        Ok(DbValue::Real(b)) => assert_eq!(f64::from_bits(b), 2.25),
        other => panic!("unexpected {:?}", other),
    }
    match decode(&HostTerm::Text("abc".to_string())) {
        Ok(DbValue::Text(s)) => assert_eq!(s, "abc"),
        other => panic!("unexpected {:?}", other),
    }
    match decode(&HostTerm::Binary(vec![9, 8])) {
        Ok(DbValue::Blob(b)) => assert_eq!(b, vec![9, 8]),
        other => panic!("unexpected {:?}", other),
    }
}

#[test]
fn unrecognised_term_fails_to_decode() {
    assert!(matches!(decode(&HostTerm::Other), Err(BridgeError::Decode)));
}

#[test]
fn params_decode_in_order() {
    let terms = vec![
        HostTerm::Integer(1),
        HostTerm::Text("a".to_string()),
        HostTerm::Atom("nil".to_string()),
    ];
    let values = decode_params(&terms).expect("all terms decode");
    assert_eq!(values.len(), 3);
    assert!(matches!(values[0], DbValue::Integer(1)));
    assert!(matches!(&values[1], DbValue::Text(s) if s == "a"));
    assert!(matches!(values[2], DbValue::Null));
}

#[test]
fn params_with_unrecognised_term_fail_whole() {
    let terms = vec![HostTerm::Integer(1), HostTerm::Other, HostTerm::Integer(2)];
    assert!(matches!(decode_params(&terms), Err(BridgeError::Decode)));
}

#[test]
fn empty_params_decode_to_empty() {
    let values = decode_params(&Vec::new()).expect("nothing to decode");
    assert!(values.is_empty());
}

#[test]
fn labels_default_to_empty() {
    let names = vec![Some("id".to_string()), None, Some("name".to_string())];
    assert_eq!(column_labels(&names), vec!["id".to_string(), String::new(), "name".to_string()]);
}

#[test]
fn add_sums() {
    assert_eq!(add(2, 3), 5);
    assert_eq!(add(-7, 4), -3);
}
