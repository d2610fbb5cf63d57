//! What holds of the client whatever the server does: the laws that relate
//! the requests that are prepared to the answers that are read.

use crate::client::{create_body, db_leaf_path, db_path};
use crate::error::ErrorView;
use crate::json::{first_member, JsonView};
use crate::request::prepared;
use crate::response::{answered, is_rejection, read_items, DatabaseView};
use crate::types::{AccessControllerView, DatabaseTypeView, RequestType};
use vstd::prelude::*;

verus! {

/// An answer that carries the server's error marker is read as an invalid
/// request, whatever structure the request expects and whatever else the
/// answer holds: it is never read as a result.
pub proof fn law_rejection_is_invalid_request<T>(answer: JsonView, read: Result<T, ErrorView>)
    requires
        is_rejection(answer),
    ensures
        answered(answer, read) == Err::<T, ErrorView>(ErrorView::InvalidRequest),
{
}

/// Only an object can carry the error marker, so an answer of any other
/// kind is read by its structure alone.
pub proof fn law_only_objects_reject<T>(answer: JsonView, read: Result<T, ErrorView>)
    requires
        !(answer is Object),
    ensures
        !is_rejection(answer),
        answered(answer, read) == read,
{
}

/// An array is read whole: the documents that are read are its elements,
/// all of them and in their order.
pub proof fn law_arrays_are_read_whole(documents: Seq<JsonView>)
    ensures
        answered(JsonView::Array(documents), read_items(JsonView::Array(documents))) == Ok::<
            Seq<JsonView>,
            ErrorView,
        >(documents),
{
}

/// A record that is put is sent as it is, and a server that answers a
/// lookup with what was sent alone has the lookup read as the one-element
/// sequence of the record.
pub proof fn law_put_then_get(base: Seq<char>, dbname: Seq<char>, record: JsonView)
    ensures
        prepared(base, RequestType::Post, db_leaf_path(dbname, "put"@), Some(record)) matches Ok(
            put,
        ) ==> put.body == Some(record) && answered(
            JsonView::Array(seq![put.body->Some_0]),
            read_items(JsonView::Array(seq![put.body->Some_0])),
        ) == Ok::<Seq<JsonView>, ErrorView>(seq![record]),
{
}

/// The member of an object that a name stands for is the first of that
/// name: no member before it has the name, and where the name stands for
/// nothing no member has it.
pub proof fn law_member_is_first_of_its_name(
    members: Seq<(Seq<char>, JsonView)>,
    key: Seq<char>,
    from: int,
)
    requires
        0 <= from <= members.len(),
    ensures
        match first_member(members, key, from) {
            Some(value) => exists|i: int|
                from <= i < members.len() && #[trigger] members[i] == (key, value) && forall|j: int|
                    from <= j < i ==> (#[trigger] members[j]).0 != key,
            None => forall|j: int| from <= j < members.len() ==> (#[trigger] members[j]).0 != key,
        },
    decreases members.len() - from,
{
    if from < members.len() {
        if members[from].0 == key {
            assert(members[from] == (key, members[from].1));
        } else {
            law_member_is_first_of_its_name(members, key, from + 1);
        }
    }
}

/// The tags of two kinds of database are the same only where the kinds are
/// the same, up to the member that a document store is indexed by.
pub proof fn law_tags_are_distinct(a: DatabaseTypeView, b: DatabaseTypeView)
    requires
        a.tag() == b.tag(),
    ensures
        a is EventLog <==> b is EventLog,
        a is Feed <==> b is Feed,
        a is DocStore <==> b is DocStore,
        a is KeyValue <==> b is KeyValue,
        a is Counter <==> b is Counter,
{
    reveal_strlit("eventlog");
    reveal_strlit("feed");
    reveal_strlit("docstore");
    reveal_strlit("keyvalue");
    reveal_strlit("counter");
    assert("eventlog"@.len() == 8 && "feed"@.len() == 4 && "docstore"@.len() == 8
        && "keyvalue"@.len() == 8 && "counter"@.len() == 7);
    assert("eventlog"@[0] == 'e' && "docstore"@[0] == 'd' && "keyvalue"@[0] == 'k');
}

/// Every kind of database is read back from its tag: the tag of what is
/// read is the tag that was written, and a kind without a member to index
/// by is read back as itself.
pub proof fn law_tag_round_trip(dbtype: DatabaseTypeView)
    ensures
        DatabaseTypeView::from_tag(dbtype.tag()) matches Some(back) && back.tag() == dbtype.tag()
            && (dbtype.index_by() is None ==> back == dbtype),
{
    reveal_strlit("eventlog");
    reveal_strlit("feed");
    reveal_strlit("docstore");
    reveal_strlit("keyvalue");
    reveal_strlit("counter");
    assert("eventlog"@.len() == 8 && "feed"@.len() == 4 && "docstore"@.len() == 8
        && "keyvalue"@.len() == 8 && "counter"@.len() == 7);
    assert("eventlog"@[0] == 'e' && "docstore"@[0] == 'd' && "keyvalue"@[0] == 'k');
}

/// A database is created under its name with the tag of its kind, and a
/// descriptor that gives that name and the tag of the request back is read
/// as a database of that name and tag.
pub proof fn law_created_then_fetched(
    base: Seq<char>,
    dbname: Seq<char>,
    dbtype: DatabaseTypeView,
    ac: Option<AccessControllerView>,
    overwrite: bool,
    answer: JsonView,
)
    requires
        answer.member("dbname"@) == Some(JsonView::Str(dbname)),
        answer.member("type"@) == create_body(dbtype, ac, overwrite).member("type"@),
        answered(answer, DatabaseView::read(answer)) is Ok,
    ensures
        prepared(
            base,
            RequestType::Post,
            db_path(dbname),
            Some(create_body(dbtype, ac, overwrite)),
        ) matches Ok(create) ==> create.body matches Some(body) && body.member("type"@) == Some(
            JsonView::Str(dbtype.tag()),
        ),
        answered(answer, DatabaseView::read(answer)) matches Ok(database) && database.dbname
            == dbname && database.type_ == dbtype.tag(),
{
    reveal_strlit("create");
    reveal_strlit("type");
    let members = create_body(dbtype, ac, overwrite)->Object_0;
    assert(members[0].0 == "create"@);
    assert(members[1].0 == "type"@);
    assert("create"@.len() == 6 && "type"@.len() == 4);
    reveal_with_fuel(first_member, 3);
    assert(first_member(members, "type"@, 0) == Some(JsonView::Str(dbtype.tag())));
}

} // verus!
