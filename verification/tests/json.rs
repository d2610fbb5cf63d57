//! The JSON documents of the library.

use orbit_db_http_client::Json;

fn text(s: &str) -> Json {
    Json::Str(s.to_string())
}

fn object(members: Vec<(&str, Json)>) -> Json {
    Json::Object(members.into_iter().map(|(k, v)| (k.to_string(), v)).collect())
}

#[test]
fn a_member_is_found_by_its_name() {
    let doc = object(vec![("a", Json::UInt(1)), ("b", Json::Null), ("", text("empty"))]);
    assert_eq!(doc.get("a"), Some(&Json::UInt(1)));
    assert_eq!(doc.get("b"), Some(&Json::Null));
    assert_eq!(doc.get(""), Some(&text("empty")));
    assert_eq!(doc.get("c"), None);
    assert_eq!(doc.get("A"), None);
    assert_eq!(object(vec![]).get("a"), None);
}

#[test]
fn of_two_members_of_one_name_the_first_counts() {
    let doc = object(vec![("a", Json::UInt(1)), ("a", Json::UInt(2)), ("b", Json::UInt(3))]);
    assert_eq!(doc.get("a"), Some(&Json::UInt(1)));
    assert_eq!(doc.get("b"), Some(&Json::UInt(3)));
}

#[test]
fn only_objects_have_members() {
    assert_eq!(Json::Null.get("a"), None);
    assert_eq!(text("a").get("a"), None);
    assert_eq!(Json::Array(vec![object(vec![("a", Json::Null)])]).get("a"), None);
}

#[test]
fn documents_are_read_by_kind() {
    assert_eq!(text("x").as_str(), Some("x"));
    assert_eq!(Json::Null.as_str(), None);
    assert_eq!(Json::Bool(true).as_bool(), Some(true));
    assert_eq!(text("true").as_bool(), None);
    assert_eq!(Json::Array(vec![Json::Null]).as_array(), Some(&vec![Json::Null]));
    assert_eq!(object(vec![]).as_array(), None);
    assert_eq!(object(vec![("a", Json::Null)]).as_object(), Some(&vec![("a".to_string(), Json::Null)]));
    assert_eq!(Json::Array(vec![]).as_object(), None);
}

#[test]
fn integers_are_read_whatever_carries_them() {
    assert_eq!(Json::Int(-5).as_i64(), Some(-5));
    assert_eq!(Json::UInt(5).as_i64(), Some(5));
    assert_eq!(Json::UInt(i64::MAX as u64).as_i64(), Some(i64::MAX));
    assert_eq!(Json::UInt(i64::MAX as u64 + 1).as_i64(), None);
    assert_eq!(Json::UInt(u64::MAX).as_i64(), None);
    assert_eq!(Json::Int(i64::MIN).as_i64(), Some(i64::MIN));
    assert_eq!(Json::Int(5).as_u64(), Some(5));
    assert_eq!(Json::Int(0).as_u64(), Some(0));
    assert_eq!(Json::Int(-1).as_u64(), None);
    assert_eq!(Json::UInt(u64::MAX).as_u64(), Some(u64::MAX));
    assert_eq!(Json::Float(5f64.to_bits()).as_i64(), None);
    assert_eq!(Json::Float(5f64.to_bits()).as_u64(), None);
    assert_eq!(text("5").as_u64(), None);
}

#[test]
fn documents_are_equal_by_value() {
    assert_eq!(Json::Int(5), Json::UInt(5));
    assert_eq!(Json::UInt(0), Json::Int(0));
    assert_ne!(Json::Int(-5), Json::UInt(5));
    assert_ne!(Json::Int(-1), Json::UInt(u64::MAX));
    assert_ne!(Json::UInt(1), Json::Float(1f64.to_bits()));
    assert_ne!(Json::UInt(1), text("1"));
    assert_ne!(Json::Null, Json::Bool(false));
    assert_ne!(Json::Null, Json::UInt(0));
    assert_eq!(Json::Float(0.25f64.to_bits()), Json::Float(0.25f64.to_bits()));
    assert_ne!(Json::Float(0.25f64.to_bits()), Json::Float(0.5f64.to_bits()));
    assert_eq!(
        Json::Array(vec![Json::Int(1), object(vec![("a", Json::UInt(2))])]),
        Json::Array(vec![Json::UInt(1), object(vec![("a", Json::Int(2))])])
    );
    assert_ne!(Json::Array(vec![Json::Null]), Json::Array(vec![]));
    assert_ne!(Json::Array(vec![Json::Null, text("a")]), Json::Array(vec![text("a"), Json::Null]));
    assert_ne!(object(vec![("a", Json::Null)]), object(vec![("b", Json::Null)]));
    assert_ne!(object(vec![("a", Json::Null)]), object(vec![("a", Json::Bool(true))]));
    assert_ne!(
        object(vec![("a", Json::Null), ("b", Json::Null)]),
        object(vec![("b", Json::Null), ("a", Json::Null)])
    );
    assert_ne!(object(vec![]), Json::Array(vec![]));
    assert!(text("abc").same(&text("abc")));
    assert!(!text("abc").same(&text("abd")));
}

#[test]
fn a_copy_has_the_same_value() {
    let doc = object(vec![
        ("n", Json::Null),
        ("b", Json::Bool(true)),
        ("i", Json::Int(-3)),
        ("u", Json::UInt(3)),
        ("f", Json::Float(1.5f64.to_bits())),
        ("s", text("text")),
        ("a", Json::Array(vec![Json::UInt(1), Json::Array(vec![text("deep")])])),
        ("o", object(vec![("inner", object(vec![]))])),
    ]);
    let copy = doc.clone();
    assert_eq!(copy, doc);
    match (&copy, &doc) {
        (Json::Object(a), Json::Object(b)) => {
            assert_eq!(a.len(), 8);
            assert!(matches!(a[2].1, Json::Int(-3)));
            assert!(matches!(a[3].1, Json::UInt(3)));
            assert_eq!(a.len(), b.len());
        }
        _ => panic!("a copy of an object is an object"),
    }
}

#[test]
fn documents_are_built_from_plain_values() {
    assert_eq!(Json::from_text("abc"), text("abc"));
    assert_eq!(Json::from_optional_text(&Some("abc".to_string())), text("abc"));
    assert_eq!(Json::from_optional_text(&None), Json::Null);
    assert_eq!(
        Json::from_texts(&vec!["a".to_string(), "".to_string()]),
        Json::Array(vec![text("a"), text("")])
    );
    assert_eq!(Json::from_texts(&vec![]), Json::Array(vec![]));
    assert_eq!(
        Json::from_ints(&vec![-1, 0, i64::MAX]),
        Json::Array(vec![Json::Int(-1), Json::Int(0), Json::Int(i64::MAX)])
    );
}
