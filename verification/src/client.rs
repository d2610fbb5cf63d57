//! The client: one method for each request of the API.
//!
//! A method prepares its request and sends nothing. The path is resolved
//! against the base URL as a relative reference, so a name is taken as the
//! `url` crate reads it; the client checks nothing else about the arguments.

use crate::endpoint::{join, url_text};
use crate::error::{outcome, Error};
use crate::json::{member_views, opt_text, optional_text, Json, JsonView};
use crate::request::{body_view, prepared, Request};
use crate::text::{decimal, decimal_string};
use crate::types::{
    AccessController, AccessControllerView, DatabaseType, DatabaseTypeView, Query, RequestType,
};
use url::Url;
use vstd::prelude::*;
use vstd::string::StringExecFns;

verus! {

/// The path of a database.
pub open spec fn db_path(dbname: Seq<char>) -> Seq<char> {
    "db/"@ + dbname
}

/// The path of something below a database.
pub open spec fn db_leaf_path(dbname: Seq<char>, leaf: Seq<char>) -> Seq<char> {
    "db/"@ + dbname + "/"@ + leaf
}

/// The path that increments a counter by `value`.
pub open spec fn inc_path(dbname: Seq<char>, value: u64) -> Seq<char> {
    "db/"@ + dbname + "/inc/"@ + decimal(value as nat)
}

/// The body that bounds an iteration: `limit` items, or all of them where
/// no limit is given.
pub open spec fn limit_body(limit: Option<i64>) -> JsonView {
    JsonView::Object(
        seq![
            (
                "limit"@,
                JsonView::Number(
                    match limit {
                        Some(n) => n as int,
                        None => -1,
                    },
                ),
            ),
        ],
    )
}

/// The body that creates a database.
pub open spec fn create_body(
    dbtype: DatabaseTypeView,
    ac: Option<AccessControllerView>,
    overwrite: bool,
) -> JsonView {
    JsonView::Object(
        seq![
            ("create"@, JsonView::Bool(true)),
            ("type"@, JsonView::Str(dbtype.tag())),
            ("indexBy"@, optional_text(dbtype.index_by())),
            (
                "accessController"@,
                match ac {
                    Some(ac) => ac.to_json(),
                    None => JsonView::Null,
                },
            ),
            ("overwrite"@, JsonView::Bool(overwrite)),
        ],
    )
}

/// The body that grants write access to the identity `id`.
pub open spec fn write_access_body(id: Seq<char>) -> JsonView {
    JsonView::Object(seq![("id"@, JsonView::Str(id))])
}

/// The value of an access controller that may be absent.
pub open spec fn ac_view(ac: Option<AccessController>) -> Option<AccessControllerView> {
    match ac {
        Some(ac) => Some(ac@),
        None => None,
    }
}

fn make_db_path(dbname: &str) -> (path: String)
    ensures
        path@ == db_path(dbname@),
{
    String::from_str("db/").concat(dbname)
}

fn make_leaf_path(dbname: &str, leaf: &str) -> (path: String)
    ensures
        path@ == db_leaf_path(dbname@, leaf@),
{
    String::from_str("db/").concat(dbname).concat("/").concat(leaf)
}

/// Prepares the requests of the API for the server at one base URL.
pub struct Client {
    /// The URL of the server, against which every path is resolved.
    base_url: Url,
}

impl View for Client {
    type V = Seq<char>;

    /// The serialisation of the base URL.
    closed spec fn view(&self) -> Seq<char> {
        url_text(self.base_url)
    }
}

impl Client {
    /// A client for the server at `base_url`.
    pub fn new(base_url: Url) -> (client: Client)
        ensures
            client@ == url_text(base_url),
    {
        Client { base_url }
    }

    /// The URL of the server.
    pub fn base_url(&self) -> (url: &Url)
        ensures
            url_text(*url) == self@,
    {
        &self.base_url
    }

    /// Prepares the request with the given verb, path and body: the one
    /// place where a path is resolved against the base URL.
    pub fn request(&self, rtype: RequestType, path: &str, body: Option<Json>) -> (r: Result<
        Request,
        Error,
    >)
        ensures
            outcome(r) == prepared(self@, rtype, path@, body_view(body)),
    {
        Request::assemble(rtype, join(&self.base_url, path), body)
    }

    /// `GET dbs`: all databases, by name. The answer is read by
    /// [`crate::response::databases`].
    pub fn get_dbs(&self) -> (r: Result<Request, Error>)
        ensures
            outcome(r) == prepared(self@, RequestType::Get, "dbs"@, None),
    {
        self.request(RequestType::Get, "dbs", None)
    }

    /// `GET db/{dbname}`: the descriptor of a database. The answer is read
    /// by [`crate::response::Database::from_json`].
    pub fn get_db(&self, dbname: &str) -> (r: Result<Request, Error>)
        ensures
            outcome(r) == prepared(self@, RequestType::Get, db_path(dbname@), None),
    {
        let path = make_db_path(dbname);
        self.request(RequestType::Get, path.as_str(), None)
    }

    /// `GET db/{dbname}/value`: the value of a counter. The answer is read
    /// by [`crate::response::counter_value`].
    pub fn get_counter_value(&self, dbname: &str) -> (r: Result<Request, Error>)
        ensures
            outcome(r) == prepared(
                self@,
                RequestType::Get,
                db_leaf_path(dbname@, "value"@),
                None,
            ),
    {
        let path = make_leaf_path(dbname, "value");
        self.request(RequestType::Get, path.as_str(), None)
    }

    /// `GET db/{dbname}/{item}`: the records found under `item`. The answer
    /// is read by [`crate::response::items`].
    pub fn get_db_item(&self, dbname: &str, item: &str) -> (r: Result<Request, Error>)
        ensures
            outcome(r) == prepared(self@, RequestType::Get, db_leaf_path(dbname@, item@), None),
    {
        let path = make_leaf_path(dbname, item);
        self.request(RequestType::Get, path.as_str(), None)
    }

    /// `GET db/{dbname}/iterator`: the entries of an event log or feed, at
    /// most `limit` of them where a limit is given. The answer is read by
    /// [`crate::response::items`].
    pub fn get_db_iterator(&self, dbname: &str, limit: Option<i64>) -> (r: Result<Request, Error>)
        ensures
            outcome(r) == prepared(
                self@,
                RequestType::Get,
                db_leaf_path(dbname@, "iterator"@),
                Some(limit_body(limit)),
            ),
    {
        let path = make_leaf_path(dbname, "iterator");
        let bound: i64 = match limit {
            Some(n) => n,
            None => -1,
        };
        let mut members: Vec<(String, Json)> = Vec::new();
        members.push((String::from_str("limit"), Json::Int(bound)));
        assert(member_views(members@) =~= seq![("limit"@, JsonView::Number(bound as int))]);
        self.request(RequestType::Get, path.as_str(), Some(Json::Object(members)))
    }

    /// `GET db/{dbname}/index`: the index of a database, whatever its form.
    /// The answer is read by [`crate::response::index`].
    pub fn get_db_index(&self, dbname: &str) -> (r: Result<Request, Error>)
        ensures
            outcome(r) == prepared(
                self@,
                RequestType::Get,
                db_leaf_path(dbname@, "index"@),
                None,
            ),
    {
        let path = make_leaf_path(dbname, "index");
        self.request(RequestType::Get, path.as_str(), None)
    }

    /// `GET identity`: the identity of the server's node. The answer is read
    /// by [`crate::response::Identity::from_json`].
    pub fn get_identity(&self) -> (r: Result<Request, Error>)
        ensures
            outcome(r) == prepared(self@, RequestType::Get, "identity"@, None),
    {
        self.request(RequestType::Get, "identity", None)
    }

    /// `POST db/{dbname}`: creates a database of the given kind, or opens
    /// the one that exists. The answer is read by
    /// [`crate::response::Database::from_json`].
    pub fn create_db(
        &self,
        dbname: &str,
        dbtype: DatabaseType,
        ac: Option<AccessController>,
        overwrite: bool,
    ) -> (r: Result<Request, Error>)
        ensures
            outcome(r) == prepared(
                self@,
                RequestType::Post,
                db_path(dbname@),
                Some(create_body(dbtype@, ac_view(ac), overwrite)),
            ),
    {
        let path = make_db_path(dbname);
        let tag = dbtype.to_string();
        let index_by = match &dbtype {
            DatabaseType::DocStore { index_by } => Json::from_optional_text(index_by),
            _ => Json::Null,
        };
        let controller = match &ac {
            Some(ac) => ac.to_json(),
            None => Json::Null,
        };
        let mut members: Vec<(String, Json)> = Vec::new();
        members.push((String::from_str("create"), Json::Bool(true)));
        members.push((String::from_str("type"), Json::Str(tag)));
        members.push((String::from_str("indexBy"), index_by));
        members.push((String::from_str("accessController"), controller));
        members.push((String::from_str("overwrite"), Json::Bool(overwrite)));
        assert(member_views(members@) =~= create_body(dbtype@, ac_view(ac), overwrite)->Object_0);
        self.request(RequestType::Post, path.as_str(), Some(Json::Object(members)))
    }

    /// `POST db/{dbname}/query`: the documents that the query selects. The
    /// answer is read by [`crate::response::items`].
    pub fn db_query(&self, dbname: &str, query: Query) -> (r: Result<Request, Error>)
        ensures
            outcome(r) == prepared(
                self@,
                RequestType::Post,
                db_leaf_path(dbname@, "query"@),
                Some(query@.to_json()),
            ),
    {
        let path = make_leaf_path(dbname, "query");
        self.request(RequestType::Post, path.as_str(), Some(query.to_json()))
    }

    /// `POST db/{dbname}/add`: appends an entry to an event log or feed.
    /// The answer is read by [`crate::response::Hash::from_json`].
    pub fn db_add(&self, dbname: &str, entry: String) -> (r: Result<Request, Error>)
        ensures
            outcome(r) == prepared(
                self@,
                RequestType::Post,
                db_leaf_path(dbname@, "add"@),
                Some(JsonView::Str(entry@)),
            ),
    {
        let path = make_leaf_path(dbname, "add");
        self.request(RequestType::Post, path.as_str(), Some(Json::Str(entry)))
    }

    /// `POST db/{dbname}/put`: puts a record into a store. The record is
    /// sent as it is. The answer is read by
    /// [`crate::response::Hash::from_json`].
    pub fn db_put(&self, dbname: &str, record: Json) -> (r: Result<Request, Error>)
        ensures
            outcome(r) == prepared(
                self@,
                RequestType::Post,
                db_leaf_path(dbname@, "put"@),
                Some(record@),
            ),
    {
        let path = make_leaf_path(dbname, "put");
        self.request(RequestType::Post, path.as_str(), Some(record))
    }

    /// `POST db/{dbname}/inc`: increments a counter by one. The answer is
    /// read by [`crate::response::Hash::from_json`].
    pub fn db_inc(&self, dbname: &str) -> (r: Result<Request, Error>)
        ensures
            outcome(r) == prepared(
                self@,
                RequestType::Post,
                db_leaf_path(dbname@, "inc"@),
                None,
            ),
    {
        let path = make_leaf_path(dbname, "inc");
        self.request(RequestType::Post, path.as_str(), None)
    }

    /// `POST db/{dbname}/inc/{value}`: increments a counter by `value`. The
    /// answer is read by [`crate::response::Hash::from_json`].
    pub fn db_inc_val(&self, dbname: &str, value: u64) -> (r: Result<Request, Error>)
        ensures
            outcome(r) == prepared(self@, RequestType::Post, inc_path(dbname@, value), None),
    {
        let amount = decimal_string(value);
        let path = String::from_str("db/").concat(dbname).concat("/inc/").concat(amount.as_str());
        self.request(RequestType::Post, path.as_str(), None)
    }

    /// `POST db/{dbname}/access/write`: lets the identity `id` write to the
    /// database. The answer is read by [`crate::response::Hash::from_json`].
    pub fn db_write_access(&self, dbname: &str, id: String) -> (r: Result<Request, Error>)
        ensures
            outcome(r) == prepared(
                self@,
                RequestType::Post,
                db_leaf_path(dbname@, "access/write"@),
                Some(write_access_body(id@)),
            ),
    {
        let path = make_leaf_path(dbname, "access/write");
        let mut members: Vec<(String, Json)> = Vec::new();
        members.push((String::from_str("id"), Json::Str(id)));
        assert(member_views(members@) =~= seq![("id"@, JsonView::Str(id@))]);
        self.request(RequestType::Post, path.as_str(), Some(Json::Object(members)))
    }

    /// `DELETE db/{dbname}`: deletes a database. The answer is read by
    /// [`crate::response::deleted`].
    pub fn delete_db(&self, dbname: &str) -> (r: Result<Request, Error>)
        ensures
            outcome(r) == prepared(self@, RequestType::Delete, db_path(dbname@), None),
    {
        let path = make_db_path(dbname);
        self.request(RequestType::Delete, path.as_str(), None)
    }

    /// `DELETE db/{dbname}/{item}`: deletes what is found under `item`. The
    /// answer is read by [`crate::response::Hash::from_json`].
    pub fn delete_db_item(&self, dbname: &str, item: &str) -> (r: Result<Request, Error>)
        ensures
            outcome(r) == prepared(self@, RequestType::Delete, db_leaf_path(dbname@, item@), None),
    {
        let path = make_leaf_path(dbname, item);
        self.request(RequestType::Delete, path.as_str(), None)
    }
}

} // verus!
