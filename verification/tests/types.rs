//! Kinds, comparisons and the decimal numerals of the paths.

use orbit_db_http_client::text::{decimal_string, push_decimal};
use orbit_db_http_client::{AccessController, Comparison, DatabaseType, Json, Query};

#[test]
fn tags_of_the_kinds() {
    assert_eq!(DatabaseType::EventLog.to_string(), "eventlog");
    assert_eq!(DatabaseType::Feed.to_string(), "feed");
    assert_eq!(DatabaseType::DocStore { index_by: None }.to_string(), "docstore");
    assert_eq!(DatabaseType::DocStore { index_by: Some("_id".to_string()) }.to_string(), "docstore");
    assert_eq!(DatabaseType::KeyValue.to_string(), "keyvalue");
    assert_eq!(DatabaseType::Counter.to_string(), "counter");
}

#[test]
fn kinds_are_read_from_their_tags() {
    assert_eq!(DatabaseType::from_str("eventlog"), Some(DatabaseType::EventLog));
    assert_eq!(DatabaseType::from_str("feed"), Some(DatabaseType::Feed));
    assert_eq!(DatabaseType::from_str("docstore"), Some(DatabaseType::DocStore { index_by: None }));
    assert_eq!(DatabaseType::from_str("keyvalue"), Some(DatabaseType::KeyValue));
    assert_eq!(DatabaseType::from_str("counter"), Some(DatabaseType::Counter));
}

#[test]
fn unknown_tags_are_no_kind() {
    assert_eq!(DatabaseType::from_str("Feed"), None);
    assert_eq!(DatabaseType::from_str("DocStore"), None);
    assert_eq!(DatabaseType::from_str(""), None);
    assert_eq!(DatabaseType::from_str("feed "), None);
    assert_eq!(DatabaseType::from_str("key-value"), None);
}

#[test]
fn every_kind_is_read_back_from_its_tag() {
    let kinds = vec![
        DatabaseType::EventLog,
        DatabaseType::Feed,
        DatabaseType::DocStore { index_by: None },
        DatabaseType::KeyValue,
        DatabaseType::Counter,
    ];
    for kind in kinds {
        assert_eq!(DatabaseType::from_str(&kind.to_string()), Some(kind));
    }
    let indexed = DatabaseType::DocStore { index_by: Some("name".to_string()) };
    assert_eq!(
        DatabaseType::from_str(&indexed.to_string()),
        Some(DatabaseType::DocStore { index_by: None })
    );
}

#[test]
fn names_of_the_comparisons() {
    assert_eq!(Comparison::EQ.to_string(), "eq");
    assert_eq!(Comparison::NE.to_string(), "ne");
    assert_eq!(Comparison::GT.to_string(), "gt");
    assert_eq!(Comparison::LT.to_string(), "lt");
    assert_eq!(Comparison::GTE.to_string(), "gte");
    assert_eq!(Comparison::LTE.to_string(), "lte");
    assert_eq!(Comparison::Mod.to_string(), "mod");
    assert_eq!(Comparison::Range.to_string(), "range");
    assert_eq!(Comparison::All.to_string(), "all");
}

#[test]
fn comparisons_in_a_body() {
    let expected = vec![
        (Comparison::EQ, "EQ"),
        (Comparison::NE, "NE"),
        (Comparison::GT, "GT"),
        (Comparison::LT, "LT"),
        (Comparison::GTE, "GTE"),
        (Comparison::LTE, "LTE"),
        (Comparison::Mod, "Mod"),
        (Comparison::Range, "Range"),
        (Comparison::All, "All"),
    ];
    for (comp, name) in expected {
        assert_eq!(comp.to_json(), Json::Str(name.to_string()));
    }
}

#[test]
fn the_unconstrained_query_in_a_body() {
    let query = Query { propname: None, comp: None, values: vec![] };
    assert_eq!(
        query.to_json(),
        Json::Object(vec![
            ("propname".to_string(), Json::Null),
            ("comp".to_string(), Json::Null),
            ("values".to_string(), Json::Array(vec![])),
        ])
    );
}

#[test]
fn a_range_query_in_a_body() {
    let query = Query {
        propname: Some("age".to_string()),
        comp: Some(Comparison::Range),
        values: vec![i64::MIN, 0, i64::MAX],
    };
    assert_eq!(
        query.to_json(),
        Json::Object(vec![
            ("propname".to_string(), Json::Str("age".to_string())),
            ("comp".to_string(), Json::Str("Range".to_string())),
            (
                "values".to_string(),
                Json::Array(vec![Json::Int(i64::MIN), Json::Int(0), Json::Int(i64::MAX)])
            ),
        ])
    );
}

#[test]
fn an_access_controller_in_a_body() {
    let ac = AccessController { type_: "orbitdb".to_string(), write: vec![] };
    assert_eq!(
        ac.to_json(),
        Json::Object(vec![
            ("type".to_string(), Json::Str("orbitdb".to_string())),
            ("write".to_string(), Json::Array(vec![])),
        ])
    );
    let ac = AccessController { type_: "ipfs".to_string(), write: vec!["*".to_string()] };
    assert_eq!(
        ac.to_json().get("write"),
        Some(&Json::Array(vec![Json::Str("*".to_string())]))
    );
}

#[test]
fn decimal_numerals() {
    assert_eq!(decimal_string(0), "0");
    assert_eq!(decimal_string(9), "9");
    assert_eq!(decimal_string(10), "10");
    assert_eq!(decimal_string(99), "99");
    assert_eq!(decimal_string(100), "100");
    assert_eq!(decimal_string(1234567890), "1234567890");
    assert_eq!(decimal_string(u64::MAX), "18446744073709551615");
    for n in 0..2000u64 {
        assert_eq!(decimal_string(n), format!("{}", n));
    }
}

#[test]
fn decimal_numerals_are_appended() {
    let mut out = String::from("db/x/inc/");
    push_decimal(&mut out, 305);
    assert_eq!(out, "db/x/inc/305");
    push_decimal(&mut out, 0);
    assert_eq!(out, "db/x/inc/3050");
}
