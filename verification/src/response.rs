//! What the server answers with, and how an answer is read.
//!
//! Every reader first looks for the server's error marker: an answer that
//! is an object whose member `statusCode` is the number 500 stands for a
//! request that the server could not serve, whatever else it holds, and is
//! read as [`Error::InvalidRequest`]. Any other answer is held against the
//! structure that the request expects. The members of that structure are
//! examined in the order in which the structure lists them, and the first
//! that is absent or of the wrong kind is the error. Members that the
//! structure does not list are passed over.

use crate::decode::{
    bool_field, bool_member, fault, first, i64_field, i64_member, object_field, object_member,
    optional_text_field, optional_text_member, shape_fault, text_field, text_member, texts_field,
    texts_member,
};
use crate::error::{outcome, Error, ErrorView};
use crate::json::{member_views, opt_text, texts, views, Json, JsonView};
use vstd::prelude::*;

verus! {

/// Whether an answer carries the server's error marker.
pub open spec fn is_rejection(answer: JsonView) -> bool {
    answer.member("statusCode"@) == Some(JsonView::Number(500))
}

/// What reading an answer gives, where `read` is what holding it against
/// the expected structure gives: the marker goes before everything else.
pub open spec fn answered<T>(answer: JsonView, read: Result<T, ErrorView>) -> Result<T, ErrorView> {
    if is_rejection(answer) {
        Err(ErrorView::InvalidRequest)
    } else {
        read
    }
}

/// Whether an answer carries the server's error marker.
pub fn rejected(answer: &Json) -> (r: bool)
    ensures
        r == is_rejection(answer@),
{
    match answer.get("statusCode") {
        Some(status) => match status.as_u64() {
            Some(code) => code == 500,
            None => false,
        },
        None => false,
    }
}

/// The mathematical value of a [`Hash`].
pub struct HashView {
    pub hash: Seq<char>,
}

/// The reference by which the server knows what a request has written.
#[derive(Debug, Clone, PartialEq, Eq)]
pub struct Hash {
    pub hash: String,
}

impl View for Hash {
    type V = HashView;

    open spec fn view(&self) -> HashView {
        HashView { hash: self.hash@ }
    }
}

impl HashView {
    /// The hash that an answer holds.
    pub open spec fn read(answer: JsonView) -> Result<HashView, ErrorView> {
        let hash = text_member(answer, "hash"@);
        match first(shape_fault(answer), fault(hash)) {
            Some(error) => Err(error),
            None => Ok(HashView { hash: hash->Ok_0 }),
        }
    }
}

impl Hash {
    /// Reads the answer to a request that writes.
    pub fn from_json(answer: &Json) -> (r: Result<Hash, Error>)
        ensures
            outcome(r) == answered(answer@, HashView::read(answer@)),
    {
        if rejected(answer) {
            return Err(Error::InvalidRequest);
        }
        if answer.as_object().is_none() {
            return Err(Error::InvalidShape);
        }
        match text_field(answer, "hash") {
            Ok(hash) => Ok(Hash { hash }),
            Err(error) => Err(error),
        }
    }
}

/// The mathematical value of an [`Address`].
pub struct AddressView {
    pub root: Seq<char>,
    pub path: Seq<char>,
}

/// Where a database is found.
#[derive(Debug, Clone, PartialEq, Eq)]
pub struct Address {
    pub root: String,
    pub path: String,
}

impl View for Address {
    type V = AddressView;

    open spec fn view(&self) -> AddressView {
        AddressView { root: self.root@, path: self.path@ }
    }
}

impl AddressView {
    /// The address that an object holds.
    pub open spec fn read(doc: JsonView) -> Result<AddressView, ErrorView> {
        let root = text_member(doc, "root"@);
        let path = text_member(doc, "path"@);
        match first(fault(root), fault(path)) {
            Some(error) => Err(error),
            None => Ok(AddressView { root: root->Ok_0, path: path->Ok_0 }),
        }
    }

    /// The address that the member `key` of an object holds.
    pub open spec fn member(doc: JsonView, key: Seq<char>) -> Result<AddressView, ErrorView> {
        match object_member(doc, key) {
            Ok(inner) => AddressView::read(inner),
            Err(error) => Err(error),
        }
    }
}

impl Address {
    fn field(doc: &Json, key: &str) -> (r: Result<Address, Error>)
        ensures
            outcome(r) == AddressView::member(doc@, key@),
    {
        let inner = match object_field(doc, key) {
            Ok(inner) => inner,
            Err(error) => {
                return Err(error);
            },
        };
        let root = match text_field(inner, "root") {
            Ok(root) => root,
            Err(error) => {
                return Err(error);
            },
        };
        match text_field(inner, "path") {
            Ok(path) => Ok(Address { root, path }),
            Err(error) => Err(error),
        }
    }
}

/// The mathematical value of [`Options`].
pub struct OptionsView {
    pub create: bool,
    pub index_by: Option<Seq<char>>,
    pub local_only: bool,
    pub max_history: i64,
    pub overwrite: bool,
    pub replicate: bool,
}

/// The options that a database was opened with.
#[derive(Debug, Clone, PartialEq, Eq)]
pub struct Options {
    pub create: bool,
    /// The member by which the documents of a store are found again.
    pub index_by: Option<String>,
    pub local_only: bool,
    pub max_history: i64,
    pub overwrite: bool,
    pub replicate: bool,
}

impl View for Options {
    type V = OptionsView;

    open spec fn view(&self) -> OptionsView {
        OptionsView {
            create: self.create,
            index_by: opt_text(self.index_by),
            local_only: self.local_only,
            max_history: self.max_history,
            overwrite: self.overwrite,
            replicate: self.replicate,
        }
    }
}

impl OptionsView {
    /// The options that an object holds. The member `indexBy` may be absent
    /// or null.
    pub open spec fn read(doc: JsonView) -> Result<OptionsView, ErrorView> {
        let create = bool_member(doc, "create"@);
        let index_by = optional_text_member(doc, "indexBy"@);
        let local_only = bool_member(doc, "localOnly"@);
        let max_history = i64_member(doc, "maxHistory"@);
        let overwrite = bool_member(doc, "overwrite"@);
        let replicate = bool_member(doc, "replicate"@);
        match first(
            fault(create),
            first(
                fault(index_by),
                first(
                    fault(local_only),
                    first(fault(max_history), first(fault(overwrite), fault(replicate))),
                ),
            ),
        ) {
            Some(error) => Err(error),
            None => Ok(
                OptionsView {
                    create: create->Ok_0,
                    index_by: index_by->Ok_0,
                    local_only: local_only->Ok_0,
                    max_history: max_history->Ok_0,
                    overwrite: overwrite->Ok_0,
                    replicate: replicate->Ok_0,
                },
            ),
        }
    }

    /// The options that the member `key` of an object holds.
    pub open spec fn member(doc: JsonView, key: Seq<char>) -> Result<OptionsView, ErrorView> {
        match object_member(doc, key) {
            Ok(inner) => OptionsView::read(inner),
            Err(error) => Err(error),
        }
    }
}

impl Options {
    fn field(doc: &Json, key: &str) -> (r: Result<Options, Error>)
        ensures
            outcome(r) == OptionsView::member(doc@, key@),
    {
        let inner = match object_field(doc, key) {
            Ok(inner) => inner,
            Err(error) => {
                return Err(error);
            },
        };
        let create = match bool_field(inner, "create") {
            Ok(create) => create,
            Err(error) => {
                return Err(error);
            },
        };
        let index_by = match optional_text_field(inner, "indexBy") {
            Ok(index_by) => index_by,
            Err(error) => {
                return Err(error);
            },
        };
        let local_only = match bool_field(inner, "localOnly") {
            Ok(local_only) => local_only,
            Err(error) => {
                return Err(error);
            },
        };
        let max_history = match i64_field(inner, "maxHistory") {
            Ok(max_history) => max_history,
            Err(error) => {
                return Err(error);
            },
        };
        let overwrite = match bool_field(inner, "overwrite") {
            Ok(overwrite) => overwrite,
            Err(error) => {
                return Err(error);
            },
        };
        match bool_field(inner, "replicate") {
            Ok(replicate) => Ok(
                Options { create, index_by, local_only, max_history, overwrite, replicate },
            ),
            Err(error) => Err(error),
        }
    }
}

/// The mathematical value of a [`Database`].
pub struct DatabaseView {
    pub address: AddressView,
    pub dbname: Seq<char>,
    pub id: Seq<char>,
    pub options: OptionsView,
    pub can_append: bool,
    pub write: Seq<Seq<char>>,
    pub type_: Seq<char>,
    pub capabilities: Seq<Seq<char>>,
}

/// The descriptor of a database.
#[derive(Debug, Clone, PartialEq, Eq)]
pub struct Database {
    pub address: Address,
    pub dbname: String,
    pub id: String,
    pub options: Options,
    pub can_append: bool,
    /// The identities that may write.
    pub write: Vec<String>,
    /// The tag of the kind of database.
    pub type_: String,
    /// The requests that the database serves.
    pub capabilities: Vec<String>,
}

impl View for Database {
    type V = DatabaseView;

    open spec fn view(&self) -> DatabaseView {
        DatabaseView {
            address: self.address@,
            dbname: self.dbname@,
            id: self.id@,
            options: self.options@,
            can_append: self.can_append,
            write: texts(self.write@),
            type_: self.type_@,
            capabilities: texts(self.capabilities@),
        }
    }
}

impl DatabaseView {
    /// The descriptor that a document holds.
    pub open spec fn read(doc: JsonView) -> Result<DatabaseView, ErrorView> {
        let address = AddressView::member(doc, "address"@);
        let dbname = text_member(doc, "dbname"@);
        let id = text_member(doc, "id"@);
        let options = OptionsView::member(doc, "options"@);
        let can_append = bool_member(doc, "canAppend"@);
        let write = texts_member(doc, "write"@);
        let type_ = text_member(doc, "type"@);
        let capabilities = texts_member(doc, "capabilities"@);
        match first(
            shape_fault(doc),
            first(
                fault(address),
                first(
                    fault(dbname),
                    first(
                        fault(id),
                        first(
                            fault(options),
                            first(
                                fault(can_append),
                                first(fault(write), first(fault(type_), fault(capabilities))),
                            ),
                        ),
                    ),
                ),
            ),
        ) {
            Some(error) => Err(error),
            None => Ok(
                DatabaseView {
                    address: address->Ok_0,
                    dbname: dbname->Ok_0,
                    id: id->Ok_0,
                    options: options->Ok_0,
                    can_append: can_append->Ok_0,
                    write: write->Ok_0,
                    type_: type_->Ok_0,
                    capabilities: capabilities->Ok_0,
                },
            ),
        }
    }
}

impl Database {
    /// Holds a document against the structure of a descriptor.
    fn read(doc: &Json) -> (r: Result<Database, Error>)
        ensures
            outcome(r) == DatabaseView::read(doc@),
    {
        if doc.as_object().is_none() {
            return Err(Error::InvalidShape);
        }
        let address = match Address::field(doc, "address") {
            Ok(address) => address,
            Err(error) => {
                return Err(error);
            },
        };
        let dbname = match text_field(doc, "dbname") {
            Ok(dbname) => dbname,
            Err(error) => {
                return Err(error);
            },
        };
        let id = match text_field(doc, "id") {
            Ok(id) => id,
            Err(error) => {
                return Err(error);
            },
        };
        let options = match Options::field(doc, "options") {
            Ok(options) => options,
            Err(error) => {
                return Err(error);
            },
        };
        let can_append = match bool_field(doc, "canAppend") {
            Ok(can_append) => can_append,
            Err(error) => {
                return Err(error);
            },
        };
        let write = match texts_field(doc, "write") {
            Ok(write) => write,
            Err(error) => {
                return Err(error);
            },
        };
        let type_ = match text_field(doc, "type") {
            Ok(type_) => type_,
            Err(error) => {
                return Err(error);
            },
        };
        match texts_field(doc, "capabilities") {
            Ok(capabilities) => Ok(
                Database { address, dbname, id, options, can_append, write, type_, capabilities },
            ),
            Err(error) => Err(error),
        }
    }

    /// Reads the answer to a request for the descriptor of a database.
    pub fn from_json(answer: &Json) -> (r: Result<Database, Error>)
        ensures
            outcome(r) == answered(answer@, DatabaseView::read(answer@)),
    {
        if rejected(answer) {
            return Err(Error::InvalidRequest);
        }
        Database::read(answer)
    }
}

/// The mathematical value of [`Signatures`].
pub struct SignaturesView {
    pub id: Seq<char>,
    pub public_key: Seq<char>,
}

/// The signatures that vouch for an identity: one for its id, one for its
/// public key.
#[derive(Debug, Clone, PartialEq, Eq)]
pub struct Signatures {
    pub id: String,
    pub public_key: String,
}

impl View for Signatures {
    type V = SignaturesView;

    open spec fn view(&self) -> SignaturesView {
        SignaturesView { id: self.id@, public_key: self.public_key@ }
    }
}

impl SignaturesView {
    /// The signatures that an object holds.
    pub open spec fn read(doc: JsonView) -> Result<SignaturesView, ErrorView> {
        let id = text_member(doc, "id"@);
        let public_key = text_member(doc, "publicKey"@);
        match first(fault(id), fault(public_key)) {
            Some(error) => Err(error),
            None => Ok(SignaturesView { id: id->Ok_0, public_key: public_key->Ok_0 }),
        }
    }

    /// The signatures that the member `key` of an object holds.
    pub open spec fn member(doc: JsonView, key: Seq<char>) -> Result<SignaturesView, ErrorView> {
        match object_member(doc, key) {
            Ok(inner) => SignaturesView::read(inner),
            Err(error) => Err(error),
        }
    }
}

impl Signatures {
    fn field(doc: &Json, key: &str) -> (r: Result<Signatures, Error>)
        ensures
            outcome(r) == SignaturesView::member(doc@, key@),
    {
        let inner = match object_field(doc, key) {
            Ok(inner) => inner,
            Err(error) => {
                return Err(error);
            },
        };
        let id = match text_field(inner, "id") {
            Ok(id) => id,
            Err(error) => {
                return Err(error);
            },
        };
        match text_field(inner, "publicKey") {
            Ok(public_key) => Ok(Signatures { id, public_key }),
            Err(error) => Err(error),
        }
    }
}

/// The mathematical value of an [`Identity`].
pub struct IdentityView {
    pub id: Seq<char>,
    pub public_key: Seq<char>,
    pub signatures: SignaturesView,
    pub type_: Seq<char>,
}

/// What identifies the server's node and signs its entries. The server
/// makes it; the client only reads it.
#[derive(Debug, Clone, PartialEq, Eq)]
pub struct Identity {
    pub id: String,
    pub public_key: String,
    pub signatures: Signatures,
    pub type_: String,
}

impl View for Identity {
    type V = IdentityView;

    open spec fn view(&self) -> IdentityView {
        IdentityView {
            id: self.id@,
            public_key: self.public_key@,
            signatures: self.signatures@,
            type_: self.type_@,
        }
    }
}

impl IdentityView {
    /// The identity that a document holds.
    pub open spec fn read(doc: JsonView) -> Result<IdentityView, ErrorView> {
        let id = text_member(doc, "id"@);
        let public_key = text_member(doc, "publicKey"@);
        let signatures = SignaturesView::member(doc, "signatures"@);
        let type_ = text_member(doc, "type"@);
        match first(
            shape_fault(doc),
            first(fault(id), first(fault(public_key), first(fault(signatures), fault(type_)))),
        ) {
            Some(error) => Err(error),
            None => Ok(
                IdentityView {
                    id: id->Ok_0,
                    public_key: public_key->Ok_0,
                    signatures: signatures->Ok_0,
                    type_: type_->Ok_0,
                },
            ),
        }
    }
}

impl Identity {
    /// Reads the answer to a request for the identity.
    pub fn from_json(answer: &Json) -> (r: Result<Identity, Error>)
        ensures
            outcome(r) == answered(answer@, IdentityView::read(answer@)),
    {
        if rejected(answer) {
            return Err(Error::InvalidRequest);
        }
        if answer.as_object().is_none() {
            return Err(Error::InvalidShape);
        }
        let id = match text_field(answer, "id") {
            Ok(id) => id,
            Err(error) => {
                return Err(error);
            },
        };
        let public_key = match text_field(answer, "publicKey") {
            Ok(public_key) => public_key,
            Err(error) => {
                return Err(error);
            },
        };
        let signatures = match Signatures::field(answer, "signatures") {
            Ok(signatures) => signatures,
            Err(error) => {
                return Err(error);
            },
        };
        match text_field(answer, "type") {
            Ok(type_) => Ok(Identity { id, public_key, signatures, type_ }),
            Err(error) => Err(error),
        }
    }
}

/// The value of a counter that an answer holds: the answer must be an
/// integer in the range of `u64`.
pub open spec fn read_counter_value(answer: JsonView) -> Result<u64, ErrorView> {
    match answer.as_u64() {
        Some(value) => Ok(value),
        None => Err(ErrorView::InvalidShape),
    }
}

/// Reads the answer to a request for the value of a counter.
pub fn counter_value(answer: &Json) -> (r: Result<u64, Error>)
    ensures
        outcome(r) == answered(answer@, read_counter_value(answer@)),
{
    if rejected(answer) {
        return Err(Error::InvalidRequest);
    }
    match answer.as_u64() {
        Some(value) => Ok(value),
        None => Err(Error::InvalidShape),
    }
}

/// The documents that an answer holds: the answer must be an array, and
/// its elements are the documents, in their order.
pub open spec fn read_items(answer: JsonView) -> Result<Seq<JsonView>, ErrorView> {
    match answer {
        JsonView::Array(items) => Ok(items),
        _ => Err(ErrorView::InvalidShape),
    }
}

/// Reads the answer to a request for records or entries: a lookup, an
/// iteration or a query.
pub fn items(answer: &Json) -> (r: Result<Vec<Json>, Error>)
    ensures
        match r {
            Ok(documents) => answered(answer@, read_items(answer@)) == Ok::<
                Seq<JsonView>,
                ErrorView,
            >(views(documents@)),
            Err(error) => answered(answer@, read_items(answer@)) == Err::<Seq<JsonView>, ErrorView>(
                error@,
            ),
        },
{
    if rejected(answer) {
        return Err(Error::InvalidRequest);
    }
    match answer.as_array() {
        Some(elements) => {
            let mut documents: Vec<Json> = Vec::new();
            let mut i: usize = 0;
            while i < elements.len()
                invariant
                    i <= elements.len(),
                    documents.len() == i,
                    forall|k: int| 0 <= k < i ==> (#[trigger] documents[k])@ == elements[k]@,
                decreases elements.len() - i,
            {
                documents.push(elements[i].clone());
                i += 1;
            }
            assert(views(documents@) =~= views(elements@));
            Ok(documents)
        },
        None => Err(Error::InvalidShape),
    }
}

/// Reads the answer to a request for the index of a database: any document
/// but the error marker is an index.
pub fn index(answer: &Json) -> (r: Result<Json, Error>)
    ensures
        outcome(r) == answered(answer@, Ok(answer@)),
{
    if rejected(answer) {
        return Err(Error::InvalidRequest);
    }
    Ok(answer.clone())
}

/// What deleting a database is answered with: the answer must be an object
/// without members.
pub open spec fn read_deleted(answer: JsonView) -> Result<(), ErrorView> {
    match answer {
        JsonView::Object(members) if members.len() == 0 => Ok(()),
        _ => Err(ErrorView::InvalidShape),
    }
}

/// Reads the answer to a request that deletes a database.
pub fn deleted(answer: &Json) -> (r: Result<(), Error>)
    ensures
        match r {
            Ok(_) => answered(answer@, read_deleted(answer@)) == Ok::<(), ErrorView>(()),
            Err(error) => answered(answer@, read_deleted(answer@)) == Err::<(), ErrorView>(error@),
        },
{
    if rejected(answer) {
        return Err(Error::InvalidRequest);
    }
    match answer.as_object() {
        Some(members) => if members.len() == 0 {
            Ok(())
        } else {
            Err(Error::InvalidShape)
        },
        None => Err(Error::InvalidShape),
    }
}

/// The fault of the first member at or after position `from` whose value
/// is no descriptor of a database.
pub open spec fn first_bad_database(members: Seq<(Seq<char>, JsonView)>, from: int) -> Option<
    ErrorView,
>
    decreases members.len() - from,
{
    if from < 0 || from >= members.len() {
        None
    } else if DatabaseView::read(members[from].1) is Err {
        fault(DatabaseView::read(members[from].1))
    } else {
        first_bad_database(members, from + 1)
    }
}

/// The databases that an answer holds: the answer must be an object, and
/// each member is a database under its name, in the order of the members.
pub open spec fn read_databases(answer: JsonView) -> Result<
    Seq<(Seq<char>, DatabaseView)>,
    ErrorView,
> {
    match answer {
        JsonView::Object(members) => match first_bad_database(members, 0) {
            Some(error) => Err(error),
            None => Ok(
                members.map_values(
                    |member: (Seq<char>, JsonView)| (member.0, DatabaseView::read(member.1)->Ok_0),
                ),
            ),
        },
        _ => Err(ErrorView::InvalidShape),
    }
}

/// The names and values of a list of databases.
pub open spec fn named_views(databases: Seq<(String, Database)>) -> Seq<(Seq<char>, DatabaseView)> {
    databases.map_values(|named: (String, Database)| (named.0@, named.1@))
}

/// Reads the answer to a request for all databases.
pub fn databases(answer: &Json) -> (r: Result<Vec<(String, Database)>, Error>)
    ensures
        match r {
            Ok(found) => answered(answer@, read_databases(answer@)) == Ok::<
                Seq<(Seq<char>, DatabaseView)>,
                ErrorView,
            >(named_views(found@)),
            Err(error) => answered(answer@, read_databases(answer@)) == Err::<
                Seq<(Seq<char>, DatabaseView)>,
                ErrorView,
            >(error@),
        },
{
    if rejected(answer) {
        return Err(Error::InvalidRequest);
    }
    match answer.as_object() {
        Some(members) => {
            let ghost all = member_views(members@);
            let mut found: Vec<(String, Database)> = Vec::new();
            let mut i: usize = 0;
            while i < members.len()
                invariant
                    i <= members.len(),
                    found.len() == i,
                    all == member_views(members@),
                    answer@ == JsonView::Object(all),
                    !is_rejection(answer@),
                    first_bad_database(all, 0) == first_bad_database(all, i as int),
                    forall|k: int|
                        0 <= k < i ==> DatabaseView::read(all[k].1) == Ok::<
                            DatabaseView,
                            ErrorView,
                        >((#[trigger] found[k]).1@) && found[k].0@ == all[k].0,
                decreases members.len() - i,
            {
                assert(all[i as int] == (members[i as int].0@, members[i as int].1@));
                match Database::read(&members[i].1) {
                    Ok(database) => {
                        found.push((members[i].0.clone(), database));
                    },
                    Err(error) => {
                        return Err(error);
                    },
                }
                i += 1;
            }
            assert(all.map_values(
                |member: (Seq<char>, JsonView)| (member.0, DatabaseView::read(member.1)->Ok_0),
            ) =~= named_views(found@));
            Ok(found)
        },
        None => Err(Error::InvalidShape),
    }
}

} // verus!
