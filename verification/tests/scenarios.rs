//! One exchange with the server for each request of the API: the request
//! that the client prepares, and what it reads from the answer that a
//! server gives to it.

use orbit_db_http_client::response::{counter_value, databases, deleted, index, items};
use orbit_db_http_client::{
    Client, Database, DatabaseType, Error, Identity, Json, Query, RequestType,
};

fn client() -> Result<Client, url::ParseError> {
    Ok(Client::new(url::Url::parse("https://localhost:3000")?))
}

fn text(s: &str) -> Json {
    Json::Str(s.to_string())
}

fn object(members: Vec<(&str, Json)>) -> Json {
    Json::Object(members.into_iter().map(|(k, v)| (k.to_string(), v)).collect())
}

fn texts(items: &[&str]) -> Json {
    Json::Array(items.iter().map(|s| text(s)).collect())
}

/// What the server answers when it cannot serve a request.
fn server_error() -> Json {
    object(vec![
        ("statusCode", Json::UInt(500)),
        ("error", text("Internal Server Error")),
        ("message", text("An internal server error occurred")),
    ])
}

/// The descriptor that the server gives of a database.
fn descriptor(dbname: &str, dbtype: &str) -> Json {
    object(vec![
        (
            "address",
            object(vec![("root", text("zdpuAmnfJZ6UTssG5Ns3o8ALXZJXVx5eTLTxf7gfFzHxurbJq")), ("path", text(dbname))]),
        ),
        ("dbname", text(dbname)),
        ("id", text(&format!("/orbitdb/zdpuAmnfJZ6UTssG5Ns3o8ALXZJXVx5eTLTxf7gfFzHxurbJq/{}", dbname))),
        (
            "options",
            object(vec![
                ("create", Json::Bool(true)),
                ("localOnly", Json::Bool(false)),
                ("maxHistory", Json::Int(-1)),
                ("overwrite", Json::Bool(true)),
                ("replicate", Json::Bool(true)),
            ]),
        ),
        ("type", text(dbtype)),
        ("canAppend", Json::Bool(true)),
        ("write", texts(&["04865d3c9f9d8b4a0fc0d8b1c8b2e1c4a3"])),
        ("capabilities", texts(&["add", "get", "iterator", "remove"])),
    ])
}

fn record() -> Json {
    object(vec![("_id", Json::UInt(1)), ("value", text("test"))])
}

fn hash_answer() -> Json {
    object(vec![("hash", text("zdpuAkkFaimxyRE2bsiLRSiybkku3oDi4vFHqPZh29BABZtZU"))])
}

/// Tests `client.get_dbs()`
#[test]
fn get_dbs() {
    let client = client().unwrap();

    let request = client.get_dbs().unwrap();
    assert_eq!(request.rtype, RequestType::Get);
    assert_eq!(request.target(), "https://localhost:3000/dbs");
    assert_eq!(request.body, None);

    let answer = object(vec![("feed", descriptor("feed", "feed")), ("counter", descriptor("counter", "counter"))]);
    let dbs = databases(&answer).unwrap();
    assert_eq!(dbs.len(), 2);
    assert_eq!(dbs[0].0, "feed");
    assert_eq!(dbs[0].1.type_, "feed");
    assert_eq!(dbs[1].0, "counter");
    assert_eq!(dbs[1].1.dbname, "counter");
}

/// Tests success of `client.get_db(:dbname)`
#[test]
fn get_db_ok() {
    let client = client().unwrap();
    let dbname = String::from("feed");

    let created = client.create_db(&dbname, DatabaseType::Feed, None, false).unwrap();
    assert_eq!(created.rtype, RequestType::Post);
    assert_eq!(created.target(), "https://localhost:3000/db/feed");
    Database::from_json(&descriptor(&dbname, "feed")).unwrap();

    // Tested function
    let request = client.get_db(&dbname).unwrap();
    assert_eq!(request.rtype, RequestType::Get);
    assert_eq!(request.target(), "https://localhost:3000/db/feed");
    assert_eq!(request.body, None);
    let db = Database::from_json(&descriptor(&dbname, "feed")).unwrap();
    assert_eq!(db.dbname, "feed");
    assert_eq!(db.type_, "feed");

    let dropped = client.delete_db(&dbname).unwrap();
    assert_eq!(dropped.rtype, RequestType::Delete);
    deleted(&object(vec![])).unwrap();
}

/// Tests failure of `client.get_db(:dbname)`
#[test]
#[should_panic]
fn get_db_err() {
    let client = client().unwrap();

    client.get_db("fake").unwrap();
    Database::from_json(&server_error()).unwrap();
}

/// Tests success of `client.get_counter_value(:dbname)`
#[test]
fn get_counter_value_ok() {
    let client = client().unwrap();
    let dbname = String::from("counter2");

    client.create_db(&dbname, DatabaseType::Counter, None, false).unwrap();
    Database::from_json(&descriptor(&dbname, "counter")).unwrap();

    let request = client.get_counter_value(&dbname).unwrap();
    assert_eq!(request.rtype, RequestType::Get);
    assert_eq!(request.target(), "https://localhost:3000/db/counter2/value");
    assert_eq!(counter_value(&Json::UInt(0)).unwrap(), 0);

    client.delete_db(&dbname).unwrap();
    deleted(&object(vec![])).unwrap();
}

/// Tests failure of `client.get_counter_value(:dbname)`
#[test]
#[should_panic]
fn get_counter_value_err() {
    let client = client().unwrap();

    client.get_counter_value("fake").unwrap();
    counter_value(&server_error()).unwrap();
}

/// Tests success of `client.get_db_item(:dbname, :item)`
#[test]
fn get_db_item_ok() {
    let client = client().unwrap();
    let dbname = String::from("docstore");
    let record = record();

    client
        .create_db(&dbname, DatabaseType::DocStore { index_by: None }, None, false)
        .unwrap();
    Database::from_json(&descriptor(&dbname, "docstore")).unwrap();

    let put = client.db_put(&dbname, record.clone()).unwrap();
    assert_eq!(put.body, Some(record.clone()));
    orbit_db_http_client::response::Hash::from_json(&hash_answer()).unwrap();

    let request = client.get_db_item(&dbname, "1").unwrap();
    assert_eq!(request.rtype, RequestType::Get);
    assert_eq!(request.target(), "https://localhost:3000/db/docstore/1");
    let answer = Json::Array(vec![put.body.unwrap()]);
    assert_eq!(items(&answer).unwrap(), vec![record]);

    client.delete_db(&dbname).unwrap();
    deleted(&object(vec![])).unwrap();
}

/// Tests failure of `client.get_db_item(:dbname, :item)`
#[test]
#[should_panic]
fn get_db_item_err() {
    let client = client().unwrap();

    client.get_db_item("fake", "item").unwrap();
    items(&server_error()).unwrap();
}

/// Tests success of `client.get_db_iterator(:dbname)`
#[test]
fn get_db_iterator_ok() {
    let client = client().unwrap();
    let dbname = String::from("feed");

    client.create_db(&dbname, DatabaseType::Feed, None, false).unwrap();
    Database::from_json(&descriptor(&dbname, "feed")).unwrap();

    // Tested function
    let request = client.get_db_iterator(&dbname, None).unwrap();
    assert_eq!(request.rtype, RequestType::Get);
    assert_eq!(request.target(), "https://localhost:3000/db/feed/iterator");
    assert_eq!(request.body, Some(object(vec![("limit", Json::Int(-1))])));
    assert_eq!(items(&Json::Array(vec![])).unwrap(), vec![]);

    client.delete_db(&dbname).unwrap();
    deleted(&object(vec![])).unwrap();
}

/// Tests failure of `client.get_db_iterator(:dbname)`
#[test]
#[should_panic]
fn get_db_iterator_err() {
    let client = client().unwrap();

    client.get_db_iterator("fake", None).unwrap();
    items(&server_error()).unwrap();
}

/// Tests `client.get_db_index(:dbname)`
#[test]
fn get_db_index() {
    let client = client().unwrap();
    let dbname = String::from("docstore");
    let record = record();

    client
        .create_db(&dbname, DatabaseType::DocStore { index_by: None }, None, false)
        .unwrap();
    Database::from_json(&descriptor(&dbname, "docstore")).unwrap();
    client.db_put(&dbname, record.clone()).unwrap();
    orbit_db_http_client::response::Hash::from_json(&hash_answer()).unwrap();

    // Tested function
    let request = client.get_db_index(&dbname).unwrap();
    assert_eq!(request.rtype, RequestType::Get);
    assert_eq!(request.target(), "https://localhost:3000/db/docstore/index");
    let answer = object(vec![("1", record)]);
    assert_eq!(index(&answer).unwrap(), answer);

    client.delete_db(&dbname).unwrap();
    deleted(&object(vec![])).unwrap();
}

/// Tests `client.get_identity()`
#[test]
fn get_identity() {
    let client = client().unwrap();

    let request = client.get_identity().unwrap();
    assert_eq!(request.rtype, RequestType::Get);
    assert_eq!(request.target(), "https://localhost:3000/identity");
    assert_eq!(request.body, None);

    let answer = object(vec![
        ("id", text("03fc293ea95bdb5dea71d5d21cbbae2a57f2d2002c9966f0d5c7b0bda232d5934d")),
        ("publicKey", text("048161d9685991dc87f3e049aa04b1da461fdc5f8a280ed6234fa41c0f9bc98a1ce91f07494584a45b97160ac818e100a6b27777e0b1b09e6ba4795dcc797a6d8b")),
        (
            "signatures",
            object(vec![
                ("id", text("3045022100e40ab2dcc83dde17c939a5515ce322e7f81bf47536ab342582db8c35f28d2a720220228e418cc3d2f3e0004d5f4292c0d2cf7975c93073e0cc831f0cb849e4ac920a")),
                ("publicKey", text("3045022100ad18ba66006e19e2952eabc9ffb532dd69d60593f90448a05d6f4903c2931e3502204009975030b839522c668cb693d357bf1f3d0423d604a9bc10645425a0a3dd1b")),
            ]),
        ),
        ("type", text("orbitdb")),
    ]);
    let identity = Identity::from_json(&answer).unwrap();
    assert_eq!(identity.id, "03fc293ea95bdb5dea71d5d21cbbae2a57f2d2002c9966f0d5c7b0bda232d5934d");
    assert_eq!(identity.type_, "orbitdb");
    assert!(identity.signatures.id.starts_with("3045022100e4"));
    assert!(identity.signatures.public_key.starts_with("3045022100ad"));
    assert!(identity.public_key.starts_with("048161"));
}

/// Tests `client.create_db(
///            :dbname,
///            :dbtype,
///            :access-controller,
///            :overwrite
///        )`
#[test]
fn create_db() {
    let client = client().unwrap();
    let dbname = String::from("docstore");

    // Tested function
    let request = client
        .create_db(&dbname, DatabaseType::DocStore { index_by: None }, None, false)
        .unwrap();
    assert_eq!(request.rtype, RequestType::Post);
    assert_eq!(request.target(), "https://localhost:3000/db/docstore");
    assert_eq!(
        request.body,
        Some(object(vec![
            ("create", Json::Bool(true)),
            ("type", text("docstore")),
            ("indexBy", Json::Null),
            ("accessController", Json::Null),
            ("overwrite", Json::Bool(false)),
        ]))
    );
    let db = Database::from_json(&descriptor(&dbname, "docstore")).unwrap();
    assert_eq!(db.dbname, dbname);
    assert_eq!(db.type_, DatabaseType::DocStore { index_by: None }.to_string());

    client.delete_db(&dbname).unwrap();
    deleted(&object(vec![])).unwrap();
}

/// Tests `client.db_query(:dbname, :query)`
#[test]
fn db_query() {
    let client = client().unwrap();
    let dbname = String::from("docstore");
    let record = record();
    let query = Query { propname: None, comp: None, values: vec![] };

    client
        .create_db(&dbname, DatabaseType::DocStore { index_by: None }, None, false)
        .unwrap();
    Database::from_json(&descriptor(&dbname, "docstore")).unwrap();

    let put = client.db_put(&dbname, record.clone()).unwrap();
    orbit_db_http_client::response::Hash::from_json(&hash_answer()).unwrap();

    let request = client.db_query(&dbname, query).unwrap();
    assert_eq!(request.rtype, RequestType::Post);
    assert_eq!(request.target(), "https://localhost:3000/db/docstore/query");
    assert_eq!(
        request.body,
        Some(object(vec![
            ("propname", Json::Null),
            ("comp", Json::Null),
            ("values", Json::Array(vec![])),
        ]))
    );
    let answer = Json::Array(vec![put.body.unwrap()]);
    assert_eq!(items(&answer).unwrap(), vec![record]);

    client.delete_db(&dbname).unwrap();
    deleted(&object(vec![])).unwrap();
}

/// Tests success of `client.db_add(:dbname, :entry)`
#[test]
fn db_add_ok() {
    let client = client().unwrap();
    let dbname = String::from("eventlog");

    client.create_db(&dbname, DatabaseType::EventLog, None, false).unwrap();
    Database::from_json(&descriptor(&dbname, "eventlog")).unwrap();

    // Tested function
    let request = client.db_add(&dbname, String::from("entry")).unwrap();
    assert_eq!(request.rtype, RequestType::Post);
    assert_eq!(request.target(), "https://localhost:3000/db/eventlog/add");
    assert_eq!(request.body, Some(text("entry")));
    let hash = orbit_db_http_client::response::Hash::from_json(&hash_answer()).unwrap();
    assert_eq!(hash.hash, "zdpuAkkFaimxyRE2bsiLRSiybkku3oDi4vFHqPZh29BABZtZU");

    client.delete_db(&dbname).unwrap();
    deleted(&object(vec![])).unwrap();
}

/// Tests failure of `client.db_add(:dbname, :entry)`
#[test]
#[should_panic]
fn db_add_err() {
    let client = client().unwrap();

    client.db_add("fake", String::from("entry")).unwrap();
    orbit_db_http_client::response::Hash::from_json(&server_error()).unwrap();
}

/// Tests success of `client.db_inc(:dbname)`
#[test]
fn inc_counter_value_ok() {
    let client = client().unwrap();
    let dbname = String::from("counter");

    client.create_db(&dbname, DatabaseType::Counter, None, false).unwrap();
    Database::from_json(&descriptor(&dbname, "counter")).unwrap();

    // Tested function
    let request = client.db_inc(&dbname).unwrap();
    assert_eq!(request.rtype, RequestType::Post);
    assert_eq!(request.target(), "https://localhost:3000/db/counter/inc");
    assert_eq!(request.body, None);
    orbit_db_http_client::response::Hash::from_json(&hash_answer()).unwrap();

    client.delete_db(&dbname).unwrap();
    deleted(&object(vec![])).unwrap();
}

/// Tests failure of `client.db_inc(:dbname)`
#[test]
#[should_panic]
fn inc_counter_value_err() {
    let client = client().unwrap();

    client.db_inc("fake").unwrap();
    orbit_db_http_client::response::Hash::from_json(&server_error()).unwrap();
}

/// Tests success of `client.db_put(:dbname, :record)`
#[test]
fn db_put_ok() {
    let client = client().unwrap();
    let dbname = String::from("docstore");
    let record = record();

    client
        .create_db(&dbname, DatabaseType::DocStore { index_by: None }, None, false)
        .unwrap();
    Database::from_json(&descriptor(&dbname, "docstore")).unwrap();

    // Tested function
    let request = client.db_put(&dbname, record.clone()).unwrap();
    assert_eq!(request.rtype, RequestType::Post);
    assert_eq!(request.target(), "https://localhost:3000/db/docstore/put");
    assert_eq!(request.body, Some(record));
    orbit_db_http_client::response::Hash::from_json(&hash_answer()).unwrap();

    client.delete_db(&dbname).unwrap();
    deleted(&object(vec![])).unwrap();
}

/// Tests failure of `client.db_put(:dbname, :record)`
#[test]
#[should_panic]
fn db_put_err() {
    let client = client().unwrap();
    let record = record();

    client.db_put("fake", record).unwrap();
    orbit_db_http_client::response::Hash::from_json(&server_error()).unwrap();
}

/// Tests `client.delete_db(:dbname)`
#[test]
fn delete_db() {
    let client = client().unwrap();
    let dbname = String::from("docstore");

    client
        .create_db(&dbname, DatabaseType::DocStore { index_by: None }, None, false)
        .unwrap();
    Database::from_json(&descriptor(&dbname, "docstore")).unwrap();

    let request = client.delete_db(&dbname).unwrap();
    assert_eq!(request.rtype, RequestType::Delete);
    assert_eq!(request.target(), "https://localhost:3000/db/docstore");
    assert_eq!(request.body, None);
    assert_eq!(deleted(&object(vec![])), Ok(()));
    assert_eq!(Database::from_json(&server_error()), Err(Error::InvalidRequest));
}

/// Tests success of `client.delete_db_item(:dbname, :item)`
#[test]
fn delete_db_item_ok() {
    let client = client().unwrap();
    let dbname = String::from("docstore");
    let record = record();

    client
        .create_db(&dbname, DatabaseType::DocStore { index_by: None }, None, false)
        .unwrap();
    Database::from_json(&descriptor(&dbname, "docstore")).unwrap();
    client.db_put(&dbname, record).unwrap();
    orbit_db_http_client::response::Hash::from_json(&hash_answer()).unwrap();

    // Tested function
    let request = client.delete_db_item(&dbname, "1").unwrap();
    assert_eq!(request.rtype, RequestType::Delete);
    assert_eq!(request.target(), "https://localhost:3000/db/docstore/1");
    assert_eq!(request.body, None);
    orbit_db_http_client::response::Hash::from_json(&hash_answer()).unwrap();

    client.delete_db(&dbname).unwrap();
    deleted(&object(vec![])).unwrap();
}

/// Tests failure of `client.delete_db_item(:dbname, :item)`
#[test]
#[should_panic]
fn delete_db_item_err() {
    let client = client().unwrap();

    client.delete_db_item("fake", "item").unwrap();
    orbit_db_http_client::response::Hash::from_json(&server_error()).unwrap();
}
