//! What the caller hands to the client: the kinds of requests and databases,
//! access controllers and queries.

use crate::json::{int_array, member_views, opt_text, optional_text, text_array, texts, Json, JsonView};
use vstd::prelude::*;
use vstd::string::StringExecFns;

verus! {

/// The HTTP verb of a request.
#[derive(Debug, Clone, Copy, PartialEq, Eq, Structural)]
pub enum RequestType {
    Get,
    Post,
    Delete,
}

/// The mathematical value of a [`DatabaseType`].
pub enum DatabaseTypeView {
    EventLog,
    Feed,
    DocStore { index_by: Option<Seq<char>> },
    KeyValue,
    Counter,
}

/// The kinds of databases that the server keeps.
#[derive(Debug, Clone, PartialEq, Eq)]
pub enum DatabaseType {
    EventLog,
    Feed,
    /// A store of documents, found again by the member named `index_by`.
    DocStore { index_by: Option<String> },
    KeyValue,
    Counter,
}

impl DatabaseTypeView {
    /// The tag by which the server knows the kind.
    pub open spec fn tag(self) -> Seq<char> {
        match self {
            DatabaseTypeView::EventLog => "eventlog"@,
            DatabaseTypeView::Feed => "feed"@,
            DatabaseTypeView::DocStore { .. } => "docstore"@,
            DatabaseTypeView::KeyValue => "keyvalue"@,
            DatabaseTypeView::Counter => "counter"@,
        }
    }

    /// The member by which documents are found again: only a document store
    /// has one.
    pub open spec fn index_by(self) -> Option<Seq<char>> {
        match self {
            DatabaseTypeView::DocStore { index_by } => index_by,
            _ => None,
        }
    }

    /// The kind that a tag stands for. A document store read from its tag
    /// names no member.
    pub open spec fn from_tag(tag: Seq<char>) -> Option<DatabaseTypeView> {
        if tag == "eventlog"@ {
            Some(DatabaseTypeView::EventLog)
        } else if tag == "feed"@ {
            Some(DatabaseTypeView::Feed)
        } else if tag == "docstore"@ {
            Some(DatabaseTypeView::DocStore { index_by: None })
        } else if tag == "keyvalue"@ {
            Some(DatabaseTypeView::KeyValue)
        } else if tag == "counter"@ {
            Some(DatabaseTypeView::Counter)
        } else {
            None
        }
    }
}

impl View for DatabaseType {
    type V = DatabaseTypeView;

    open spec fn view(&self) -> DatabaseTypeView {
        match self {
            DatabaseType::EventLog => DatabaseTypeView::EventLog,
            DatabaseType::Feed => DatabaseTypeView::Feed,
            DatabaseType::DocStore { index_by } => DatabaseTypeView::DocStore {
                index_by: match index_by {
                    Some(name) => Some(name@),
                    None => None,
                },
            },
            DatabaseType::KeyValue => DatabaseTypeView::KeyValue,
            DatabaseType::Counter => DatabaseTypeView::Counter,
        }
    }
}

impl DatabaseType {
    /// The tag by which the server knows the kind, in lower case.
    pub fn to_string(&self) -> (tag: String)
        ensures
            tag@ == self@.tag(),
    {
        match self {
            DatabaseType::EventLog => String::from_str("eventlog"),
            DatabaseType::Feed => String::from_str("feed"),
            DatabaseType::DocStore { .. } => String::from_str("docstore"),
            DatabaseType::KeyValue => String::from_str("keyvalue"),
            DatabaseType::Counter => String::from_str("counter"),
        }
    }

    /// Reads a kind from its tag. Tags are matched exactly, in lower case.
    pub fn from_str(tag: &str) -> (r: Option<DatabaseType>)
        ensures
            match r {
                Some(dbtype) => DatabaseTypeView::from_tag(tag@) == Some(dbtype@),
                None => DatabaseTypeView::from_tag(tag@) is None,
            },
    {
        let tag = String::from_str(tag);
        if tag == String::from_str("eventlog") {
            Some(DatabaseType::EventLog)
        } else if tag == String::from_str("feed") {
            Some(DatabaseType::Feed)
        } else if tag == String::from_str("docstore") {
            Some(DatabaseType::DocStore { index_by: None })
        } else if tag == String::from_str("keyvalue") {
            Some(DatabaseType::KeyValue)
        } else if tag == String::from_str("counter") {
            Some(DatabaseType::Counter)
        } else {
            None
        }
    }
}

/// The mathematical value of an [`AccessController`].
pub struct AccessControllerView {
    pub type_: Seq<char>,
    pub write: Seq<Seq<char>>,
}

/// The policy that names the identities that may write to a database.
#[derive(Debug, Clone, PartialEq, Eq)]
pub struct AccessController {
    /// The kind of controller.
    pub type_: String,
    /// The identities that may write.
    pub write: Vec<String>,
}

impl AccessControllerView {
    /// The controller as it stands in the body of a request.
    pub open spec fn to_json(self) -> JsonView {
        JsonView::Object(
            seq![
                ("type"@, JsonView::Str(self.type_)),
                ("write"@, text_array(self.write)),
            ],
        )
    }
}

impl View for AccessController {
    type V = AccessControllerView;

    open spec fn view(&self) -> AccessControllerView {
        AccessControllerView { type_: self.type_@, write: texts(self.write@) }
    }
}

impl AccessController {
    /// The controller as it stands in the body of a request.
    pub fn to_json(&self) -> (body: Json)
        ensures
            body@ == self@.to_json(),
    {
        let mut members: Vec<(String, Json)> = Vec::new();
        members.push((String::from_str("type"), Json::Str(self.type_.clone())));
        members.push((String::from_str("write"), Json::from_texts(&self.write)));
        assert(member_views(members@) =~= seq![
            ("type"@, JsonView::Str(self.type_@)),
            ("write"@, text_array(texts(self.write@))),
        ]);
        Json::Object(members)
    }
}

/// How a query compares the named property with its values.
#[derive(Debug, Clone, Copy, PartialEq, Eq, Structural)]
pub enum Comparison {
    /// ==
    EQ,
    /// !=
    NE,
    /// >
    GT,
    /// <
    LT,
    /// >=
    GTE,
    /// <=
    LTE,
    /// %
    Mod,
    /// Those between the least and the greatest value
    Range,
    /// *
    All,
}

impl Comparison {
    /// The name of the operator, in lower case.
    pub open spec fn lower_name(self) -> Seq<char> {
        match self {
            Comparison::EQ => "eq"@,
            Comparison::NE => "ne"@,
            Comparison::GT => "gt"@,
            Comparison::LT => "lt"@,
            Comparison::GTE => "gte"@,
            Comparison::LTE => "lte"@,
            Comparison::Mod => "mod"@,
            Comparison::Range => "range"@,
            Comparison::All => "all"@,
        }
    }

    /// The name under which the operator stands in the body of a query: the
    /// name of the variant as it is declared.
    pub open spec fn wire_name(self) -> Seq<char> {
        match self {
            Comparison::EQ => "EQ"@,
            Comparison::NE => "NE"@,
            Comparison::GT => "GT"@,
            Comparison::LT => "LT"@,
            Comparison::GTE => "GTE"@,
            Comparison::LTE => "LTE"@,
            Comparison::Mod => "Mod"@,
            Comparison::Range => "Range"@,
            Comparison::All => "All"@,
        }
    }

    /// The name of the operator, in lower case.
    pub fn to_string(&self) -> (name: String)
        ensures
            name@ == self.lower_name(),
    {
        match self {
            Comparison::EQ => String::from_str("eq"),
            Comparison::NE => String::from_str("ne"),
            Comparison::GT => String::from_str("gt"),
            Comparison::LT => String::from_str("lt"),
            Comparison::GTE => String::from_str("gte"),
            Comparison::LTE => String::from_str("lte"),
            Comparison::Mod => String::from_str("mod"),
            Comparison::Range => String::from_str("range"),
            Comparison::All => String::from_str("all"),
        }
    }

    /// The operator as it stands in the body of a query.
    pub fn to_json(&self) -> (body: Json)
        ensures
            body@ == JsonView::Str(self.wire_name()),
    {
        match self {
            Comparison::EQ => Json::from_text("EQ"),
            Comparison::NE => Json::from_text("NE"),
            Comparison::GT => Json::from_text("GT"),
            Comparison::LT => Json::from_text("LT"),
            Comparison::GTE => Json::from_text("GTE"),
            Comparison::LTE => Json::from_text("LTE"),
            Comparison::Mod => Json::from_text("Mod"),
            Comparison::Range => Json::from_text("Range"),
            Comparison::All => Json::from_text("All"),
        }
    }
}

/// The mathematical value of a [`Query`].
pub struct QueryView {
    pub propname: Option<Seq<char>>,
    pub comp: Option<Comparison>,
    pub values: Seq<i64>,
}

/// A query on the documents of a store. The client hands it to the server as
/// it is and reads nothing into it.
#[derive(Debug, Clone, PartialEq, Eq)]
pub struct Query {
    /// The property that is compared.
    pub propname: Option<String>,
    /// How it is compared.
    pub comp: Option<Comparison>,
    /// The values that it is compared with.
    pub values: Vec<i64>,
}

impl QueryView {
    /// The query as it stands in the body of a request.
    pub open spec fn to_json(self) -> JsonView {
        JsonView::Object(
            seq![
                ("propname"@, optional_text(self.propname)),
                (
                    "comp"@,
                    match self.comp {
                        Some(comp) => JsonView::Str(comp.wire_name()),
                        None => JsonView::Null,
                    },
                ),
                ("values"@, int_array(self.values)),
            ],
        )
    }
}

impl View for Query {
    type V = QueryView;

    open spec fn view(&self) -> QueryView {
        QueryView { propname: opt_text(self.propname), comp: self.comp, values: self.values@ }
    }
}

impl Query {
    /// The query as it stands in the body of a request.
    pub fn to_json(&self) -> (body: Json)
        ensures
            body@ == self@.to_json(),
    {
        let comp = match &self.comp {
            Some(comp) => comp.to_json(),
            None => Json::Null,
        };
        let mut members: Vec<(String, Json)> = Vec::new();
        members.push((String::from_str("propname"), Json::from_optional_text(&self.propname)));
        members.push((String::from_str("comp"), comp));
        members.push((String::from_str("values"), Json::from_ints(&self.values)));
        assert(member_views(members@) =~= seq![
            ("propname"@, optional_text(opt_text(self.propname))),
            (
                "comp"@,
                match self.comp {
                    Some(comp) => JsonView::Str(comp.wire_name()),
                    None => JsonView::Null,
                },
            ),
            ("values"@, int_array(self.values@)),
        ]);
        Json::Object(members)
    }
}

} // verus!
