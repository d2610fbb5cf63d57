//! Reading the members of a JSON object, each as the kind of value that is
//! expected of it.

use crate::error::{outcome, Error, ErrorView};
use crate::json::{texts, views, Json, JsonView};
use vstd::prelude::*;
use vstd::string::StringExecFns;

verus! {

/// What went wrong in a step, if anything did.
pub open spec fn fault<T>(step: Result<T, ErrorView>) -> Option<ErrorView> {
    match step {
        Ok(_) => None,
        Err(error) => Some(error),
    }
}

/// The earlier of two faults.
pub open spec fn first(earlier: Option<ErrorView>, later: Option<ErrorView>) -> Option<ErrorView> {
    if earlier is Some {
        earlier
    } else {
        later
    }
}

/// A document that is no object has the wrong shape.
pub open spec fn shape_fault(doc: JsonView) -> Option<ErrorView> {
    if doc is Object {
        None
    } else {
        Some(ErrorView::InvalidShape)
    }
}

/// The member named `key`, which must be there.
pub open spec fn required(doc: JsonView, key: Seq<char>) -> Result<JsonView, ErrorView> {
    match doc.member(key) {
        Some(value) => Ok(value),
        None => Err(ErrorView::MissingField(key)),
    }
}

/// The member named `key`, which must be a string.
pub open spec fn text_member(doc: JsonView, key: Seq<char>) -> Result<Seq<char>, ErrorView> {
    match required(doc, key) {
        Ok(JsonView::Str(text)) => Ok(text),
        Ok(_) => Err(ErrorView::InvalidField(key)),
        Err(error) => Err(error),
    }
}

/// The member named `key`, which must be a string where it is there and not
/// null.
pub open spec fn optional_text_member(doc: JsonView, key: Seq<char>) -> Result<
    Option<Seq<char>>,
    ErrorView,
> {
    match doc.member(key) {
        None => Ok(None),
        Some(JsonView::Null) => Ok(None),
        Some(JsonView::Str(text)) => Ok(Some(text)),
        Some(_) => Err(ErrorView::InvalidField(key)),
    }
}

/// The member named `key`, which must be a truth value.
pub open spec fn bool_member(doc: JsonView, key: Seq<char>) -> Result<bool, ErrorView> {
    match required(doc, key) {
        Ok(JsonView::Bool(b)) => Ok(b),
        Ok(_) => Err(ErrorView::InvalidField(key)),
        Err(error) => Err(error),
    }
}

/// The member named `key`, which must be an integer in the range of `i64`.
pub open spec fn i64_member(doc: JsonView, key: Seq<char>) -> Result<i64, ErrorView> {
    match required(doc, key) {
        Ok(value) => match value.as_i64() {
            Some(n) => Ok(n),
            None => Err(ErrorView::InvalidField(key)),
        },
        Err(error) => Err(error),
    }
}

/// The member named `key`, which must be an array of strings.
pub open spec fn texts_member(doc: JsonView, key: Seq<char>) -> Result<Seq<Seq<char>>, ErrorView> {
    match required(doc, key) {
        Ok(JsonView::Array(items)) => if forall|i: int|
            0 <= i < items.len() ==> #[trigger] items[i] is Str {
            Ok(items.map_values(|item: JsonView| item->Str_0))
        } else {
            Err(ErrorView::InvalidField(key))
        },
        Ok(_) => Err(ErrorView::InvalidField(key)),
        Err(error) => Err(error),
    }
}

/// The member named `key`, which must be an object.
pub open spec fn object_member(doc: JsonView, key: Seq<char>) -> Result<JsonView, ErrorView> {
    match required(doc, key) {
        Ok(value) => if value is Object {
            Ok(value)
        } else {
            Err(ErrorView::InvalidField(key))
        },
        Err(error) => Err(error),
    }
}

/// The member of `doc` named `key`, which must be there.
pub fn required_field<'a>(doc: &'a Json, key: &str) -> (r: Result<&'a Json, Error>)
    ensures
        match r {
            Ok(value) => required(doc@, key@) == Ok::<JsonView, ErrorView>(value@),
            Err(error) => required(doc@, key@) == Err::<JsonView, ErrorView>(error@),
        },
{
    match doc.get(key) {
        Some(value) => Ok(value),
        None => Err(Error::MissingField(String::from_str(key))),
    }
}

/// The member of `doc` named `key`, which must be a string.
pub fn text_field(doc: &Json, key: &str) -> (r: Result<String, Error>)
    ensures
        outcome(r) == text_member(doc@, key@),
{
    match required_field(doc, key) {
        Ok(value) => match value.as_str() {
            Some(text) => Ok(String::from_str(text)),
            None => Err(Error::InvalidField(String::from_str(key))),
        },
        Err(error) => Err(error),
    }
}

/// The member of `doc` named `key`, which must be a string where it is
/// there and not null.
pub fn optional_text_field(doc: &Json, key: &str) -> (r: Result<Option<String>, Error>)
    ensures
        match r {
            Ok(text) => optional_text_member(doc@, key@) == Ok::<Option<Seq<char>>, ErrorView>(
                crate::json::opt_text(text),
            ),
            Err(error) => optional_text_member(doc@, key@) == Err::<Option<Seq<char>>, ErrorView>(
                error@,
            ),
        },
{
    match doc.get(key) {
        None => Ok(None),
        Some(value) => match value {
            Json::Null => Ok(None),
            Json::Str(text) => Ok(Some(text.clone())),
            _ => Err(Error::InvalidField(String::from_str(key))),
        },
    }
}

/// The member of `doc` named `key`, which must be a truth value.
pub fn bool_field(doc: &Json, key: &str) -> (r: Result<bool, Error>)
    ensures
        outcome(r) == bool_member(doc@, key@),
{
    match required_field(doc, key) {
        Ok(value) => match value.as_bool() {
            Some(b) => Ok(b),
            None => Err(Error::InvalidField(String::from_str(key))),
        },
        Err(error) => Err(error),
    }
}

/// The member of `doc` named `key`, which must be an integer in the range
/// of `i64`.
pub fn i64_field(doc: &Json, key: &str) -> (r: Result<i64, Error>)
    ensures
        outcome(r) == i64_member(doc@, key@),
{
    match required_field(doc, key) {
        Ok(value) => match value.as_i64() {
            Some(n) => Ok(n),
            None => Err(Error::InvalidField(String::from_str(key))),
        },
        Err(error) => Err(error),
    }
}

/// The member of `doc` named `key`, which must be an array of strings.
pub fn texts_field(doc: &Json, key: &str) -> (r: Result<Vec<String>, Error>)
    ensures
        match r {
            Ok(strings) => texts_member(doc@, key@) == Ok::<Seq<Seq<char>>, ErrorView>(
                texts(strings@),
            ),
            Err(error) => texts_member(doc@, key@) == Err::<Seq<Seq<char>>, ErrorView>(error@),
        },
{
    match required_field(doc, key) {
        Ok(value) => match value.as_array() {
            Some(items) => {
                let mut strings: Vec<String> = Vec::new();
                let mut i: usize = 0;
                while i < items.len()
                    invariant
                        i <= items.len(),
                        strings.len() == i,
                        required(doc@, key@) == Ok::<JsonView, ErrorView>(
                            JsonView::Array(views(items@)),
                        ),
                        forall|k: int|
                            0 <= k < i ==> (#[trigger] items[k])@ == JsonView::Str(strings[k]@),
                    decreases items.len() - i,
                {
                    match items[i].as_str() {
                        Some(text) => {
                            strings.push(String::from_str(text));
                        },
                        None => {
                            assert(!(views(items@)[i as int] is Str));
                            return Err(Error::InvalidField(String::from_str(key)));
                        },
                    }
                    i += 1;
                }
                proof {
                    let all = views(items@);
                    assert forall|k: int| 0 <= k < all.len() implies #[trigger] all[k] is Str by {
                        assert(items[k]@ == JsonView::Str(strings[k]@));
                    }
                    assert(all.map_values(|item: JsonView| item->Str_0) =~= texts(strings@)) by {
                        assert forall|k: int| 0 <= k < all.len() implies all[k]->Str_0
                            == strings[k]@ by {
                            assert(items[k]@ == JsonView::Str(strings[k]@));
                        }
                    }
                }
                Ok(strings)
            },
            None => Err(Error::InvalidField(String::from_str(key))),
        },
        Err(error) => Err(error),
    }
}

/// The member of `doc` named `key`, which must be an object.
pub fn object_field<'a>(doc: &'a Json, key: &str) -> (r: Result<&'a Json, Error>)
    ensures
        match r {
            Ok(value) => object_member(doc@, key@) == Ok::<JsonView, ErrorView>(value@),
            Err(error) => object_member(doc@, key@) == Err::<JsonView, ErrorView>(error@),
        },
{
    match required_field(doc, key) {
        Ok(value) => match value {
            Json::Object(_) => Ok(value),
            _ => Err(Error::InvalidField(String::from_str(key))),
        },
        Err(error) => Err(error),
    }
}

} // verus!
