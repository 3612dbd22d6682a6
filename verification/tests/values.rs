use nix_inspect::data::NixValue;
use nix_inspect::data::PathData;

#[test]
fn decode_attrs_becomes_list_with_cursor_at_top() {
    let v = NixValue::Attrs(vec!["a".to_string(), "b".to_string()]);
    match PathData::from_nix_value(v) {
        PathData::List(l) => {
            assert_eq!(l.cursor, 0);
            assert_eq!(l.list, vec!["a".to_string(), "b".to_string()]);
        },
        other => panic!("expected a list, got {:?}", other),
    }
}

#[test]
fn decode_list_synthesizes_decimal_indices() {
    let v = NixValue::List(12);
    match PathData::from_nix_value(v) {
        PathData::List(l) => {
            assert_eq!(l.cursor, 0);
            assert_eq!(l.list.len(), 12);
            assert_eq!(l.list[0], "0");
            assert_eq!(l.list[9], "9");
            assert_eq!(l.list[10], "10");
            assert_eq!(l.list[11], "11");
        },
        other => panic!("expected a list, got {:?}", other),
    }
}

#[test]
fn decode_empty_list_has_no_children() {
    match PathData::from_nix_value(NixValue::List(0)) {
        PathData::List(l) => assert_eq!(l.list.len(), 0),
        other => panic!("expected a list, got {:?}", other),
    }
}

#[test]
fn decode_scalars_map_across() {
    assert!(matches!(PathData::from_nix_value(NixValue::Int(-7)), PathData::Int(-7)));
    assert!(matches!(PathData::from_nix_value(NixValue::Bool(true)), PathData::Bool(true)));
    assert!(matches!(PathData::from_nix_value(NixValue::Null), PathData::Null));
    assert!(matches!(PathData::from_nix_value(NixValue::Thunk), PathData::Thunk));
    assert!(matches!(PathData::from_nix_value(NixValue::Function), PathData::Function));
    assert!(matches!(PathData::from_nix_value(NixValue::External), PathData::External));
    match PathData::from_nix_value(NixValue::String("hi".to_string())) {
        PathData::String(s) => assert_eq!(s, "hi"),
        other => panic!("expected a string, got {:?}", other),
    }
    match PathData::from_nix_value(NixValue::Float("1.5".to_string())) {
        PathData::Float(s) => assert_eq!(s, "1.5"),
        other => panic!("expected a float, got {:?}", other),
    }
    match PathData::from_nix_value(NixValue::Error("boom".to_string())) {
        PathData::Error(e) => assert_eq!(e, "boom"),
        other => panic!("expected an error, got {:?}", other),
    }
}

#[test]
fn type_labels() {
    assert_eq!(PathData::Thunk.get_type(), "Thunk");
    assert_eq!(PathData::Int(1).get_type(), "Int");
    assert_eq!(PathData::Float("2.0".to_string()).get_type(), "Float");
    assert_eq!(PathData::Bool(false).get_type(), "Bool");
    assert_eq!(PathData::String(String::new()).get_type(), "String");
    assert_eq!(PathData::Path("/etc".to_string()).get_type(), "Path");
    assert_eq!(PathData::Null.get_type(), "Null");
    assert_eq!(PathData::Function.get_type(), "Function");
    assert_eq!(PathData::External.get_type(), "External");
    assert_eq!(PathData::Error(String::new()).get_type(), "Error");
    assert_eq!(PathData::Loading.get_type(), "Loading");
    assert_eq!(
        PathData::from_nix_value(NixValue::Attrs(Vec::new())).get_type(),
        "List"
    );
}

#[test]
fn decode_large_list_counts_in_decimal() {
    match PathData::from_nix_value(NixValue::List(101)) {
        PathData::List(l) => {
            assert_eq!(l.list[99], "99");
            assert_eq!(l.list[100], "100");
        },
        other => panic!("expected a list, got {:?}", other),
    }
}
