//! A JSON document, as it is sent to and received from the server.

use vstd::prelude::*;
use vstd::string::StringExecFns;

verus! {

broadcast use vstd::std_specs::vec::group_vec_axioms;

/// The mathematical value of a JSON document.
pub enum JsonView {
    Null,
    Bool(bool),
    /// An integer, whatever machine type carried it.
    Number(int),
    /// A binary64 number, by its bit pattern.
    Float(u64),
    Str(Seq<char>),
    Array(Seq<JsonView>),
    /// The members of an object, in the order in which they were written.
    Object(Seq<(Seq<char>, JsonView)>),
}

/// A JSON document. Two documents are equal where their values are: an
/// integer is the same whichever machine type carries it.
#[derive(Debug)]
pub enum Json {
    Null,
    Bool(bool),
    /// An integer that fits in `i64`.
    Int(i64),
    /// An integer that fits in `u64`.
    UInt(u64),
    /// A binary64 number, held by its bit pattern.
    Float(u64),
    Str(String),
    Array(Vec<Json>),
    /// The members of an object, in the order in which they were written.
    Object(Vec<(String, Json)>),
}

/// The values of a list of documents.
pub open spec fn views(items: Seq<Json>) -> Seq<JsonView>
    decreases items,
{
    Seq::new(
        items.len(),
        |i: int|
            if 0 <= i < items.len() {
                items[i].view()
            } else {
                JsonView::Null
            },
    )
}

/// The names and values of a list of members.
pub open spec fn member_views(members: Seq<(String, Json)>) -> Seq<(Seq<char>, JsonView)>
    decreases members,
{
    Seq::new(
        members.len(),
        |i: int|
            if 0 <= i < members.len() {
                (members[i].0@, members[i].1.view())
            } else {
                (Seq::empty(), JsonView::Null)
            },
    )
}

impl View for Json {
    type V = JsonView;

    open spec fn view(&self) -> JsonView
        decreases self,
    {
        match self {
            Json::Null => JsonView::Null,
            Json::Bool(b) => JsonView::Bool(*b),
            Json::Int(n) => JsonView::Number(*n as int),
            Json::UInt(n) => JsonView::Number(*n as int),
            Json::Float(bits) => JsonView::Float(*bits),
            Json::Str(s) => JsonView::Str(s@),
            Json::Array(items) => JsonView::Array(views(items@)),
            Json::Object(members) => JsonView::Object(member_views(members@)),
        }
    }
}

impl Clone for Json {
    /// A copy with the same value.
    fn clone(&self) -> (r: Json)
        ensures
            r@ == self@,
        decreases self,
    {
        match self {
            Json::Null => Json::Null,
            Json::Bool(b) => Json::Bool(*b),
            Json::Int(n) => Json::Int(*n),
            Json::UInt(n) => Json::UInt(*n),
            Json::Float(bits) => Json::Float(*bits),
            Json::Str(text) => Json::Str(text.clone()),
            Json::Array(items) => {
                let mut copies: Vec<Json> = Vec::new();
                let mut i: usize = 0;
                while i < items.len()
                    invariant
                        i <= items.len(),
                        copies.len() == i,
                        self == Json::Array(*items),
                        forall|k: int| 0 <= k < i ==> (#[trigger] copies[k])@ == items[k]@,
                    decreases items.len() - i,
                {
                    assert(decreases_to!(self->Array_0 => self->Array_0[i as int]));
                    copies.push(items[i].clone());
                    i += 1;
                }
                assert(views(copies@) =~= views(items@));
                Json::Array(copies)
            },
            Json::Object(members) => {
                let mut copies: Vec<(String, Json)> = Vec::new();
                let mut i: usize = 0;
                while i < members.len()
                    invariant
                        i <= members.len(),
                        copies.len() == i,
                        self == Json::Object(*members),
                        forall|k: int|
                            0 <= k < i ==> (#[trigger] copies[k]).0@ == members[k].0@
                                && copies[k].1@ == members[k].1@,
                    decreases members.len() - i,
                {
                    assert(decreases_to!(self->Object_0 => self->Object_0[i as int]));
                    copies.push((members[i].0.clone(), members[i].1.clone()));
                    i += 1;
                }
                assert(member_views(copies@) =~= member_views(members@));
                Json::Object(copies)
            },
        }
    }
}

impl Json {
    /// Whether two documents have the same value.
    pub fn same(&self, other: &Json) -> (r: bool)
        ensures
            r == (self@ == other@),
        decreases self,
    {
        match (self, other) {
            (Json::Null, Json::Null) => true,
            (Json::Bool(a), Json::Bool(b)) => *a == *b,
            (Json::Int(a), Json::Int(b)) => *a == *b,
            (Json::UInt(a), Json::UInt(b)) => *a == *b,
            (Json::Int(a), Json::UInt(b)) => *a >= 0 && *a as u64 == *b,
            (Json::UInt(a), Json::Int(b)) => *b >= 0 && *b as u64 == *a,
            (Json::Float(a), Json::Float(b)) => *a == *b,
            (Json::Str(a), Json::Str(b)) => *a == *b,
            (Json::Array(a), Json::Array(b)) => {
                if a.len() != b.len() {
                    assert(views(a@).len() != views(b@).len());
                    return false;
                }
                let mut i: usize = 0;
                while i < a.len()
                    invariant
                        i <= a.len(),
                        a.len() == b.len(),
                        self == Json::Array(*a),
                        other == Json::Array(*b),
                        forall|k: int| 0 <= k < i ==> (#[trigger] a[k])@ == b[k]@,
                    decreases a.len() - i,
                {
                    assert(decreases_to!(self->Array_0 => self->Array_0[i as int]));
                    if !a[i].same(&b[i]) {
                        assert(views(a@)[i as int] != views(b@)[i as int]);
                        return false;
                    }
                    i += 1;
                }
                assert(views(a@) =~= views(b@));
                true
            },
            (Json::Object(a), Json::Object(b)) => {
                if a.len() != b.len() {
                    assert(member_views(a@).len() != member_views(b@).len());
                    return false;
                }
                let mut i: usize = 0;
                while i < a.len()
                    invariant
                        i <= a.len(),
                        a.len() == b.len(),
                        self == Json::Object(*a),
                        other == Json::Object(*b),
                        forall|k: int|
                            0 <= k < i ==> (#[trigger] a[k]).0@ == b[k].0@ && a[k].1@ == b[k].1@,
                    decreases a.len() - i,
                {
                    assert(decreases_to!(self->Object_0 => self->Object_0[i as int]));
                    if a[i].0 != b[i].0 || !a[i].1.same(&b[i].1) {
                        assert(member_views(a@)[i as int] != member_views(b@)[i as int]);
                        return false;
                    }
                    i += 1;
                }
                assert(member_views(a@) =~= member_views(b@));
                true
            },
            _ => false,
        }
    }
}

impl PartialEq for Json {
    fn eq(&self, other: &Json) -> (r: bool) {
        self.same(other)
    }
}

impl vstd::std_specs::cmp::PartialEqSpecImpl for Json {
    open spec fn obeys_eq_spec() -> bool {
        true
    }

    open spec fn eq_spec(&self, other: &Json) -> bool {
        self@ == other@
    }
}

impl Eq for Json {

}

/// The value of the first member at or after position `from` that is named
/// `key`.
pub open spec fn first_member(
    members: Seq<(Seq<char>, JsonView)>,
    key: Seq<char>,
    from: int,
) -> Option<JsonView>
    decreases members.len() - from,
{
    if from < 0 || from >= members.len() {
        None
    } else if members[from].0 == key {
        Some(members[from].1)
    } else {
        first_member(members, key, from + 1)
    }
}

impl JsonView {
    /// The value of the member named `key`, where the document is an object
    /// that has one. Of several members with that name the first counts.
    pub open spec fn member(self, key: Seq<char>) -> Option<JsonView> {
        match self {
            JsonView::Object(members) => first_member(members, key, 0),
            _ => None,
        }
    }

    /// The number as an `i64`, where the document is an integer in its range.
    pub open spec fn as_i64(self) -> Option<i64> {
        match self {
            JsonView::Number(n) if i64::MIN <= n <= i64::MAX => Some(n as i64),
            _ => None,
        }
    }

    /// The number as a `u64`, where the document is an integer in its range.
    pub open spec fn as_u64(self) -> Option<u64> {
        match self {
            JsonView::Number(n) if 0 <= n <= u64::MAX => Some(n as u64),
            _ => None,
        }
    }
}

/// The array of the given texts, each as a string.
pub open spec fn text_array(texts: Seq<Seq<char>>) -> JsonView {
    JsonView::Array(texts.map_values(|text: Seq<char>| JsonView::Str(text)))
}

/// The array of the given integers.
pub open spec fn int_array(values: Seq<i64>) -> JsonView {
    JsonView::Array(values.map_values(|n: i64| JsonView::Number(n as int)))
}

/// The text as a string, or null where there is none.
pub open spec fn optional_text(text: Option<Seq<char>>) -> JsonView {
    match text {
        Some(text) => JsonView::Str(text),
        None => JsonView::Null,
    }
}

/// The views of a list of strings.
pub open spec fn texts(strings: Seq<String>) -> Seq<Seq<char>> {
    strings.map_values(|s: String| s@)
}

/// The view of a string that may be absent.
pub open spec fn opt_text(string: Option<String>) -> Option<Seq<char>> {
    match string {
        Some(s) => Some(s@),
        None => None,
    }
}

impl Json {
    /// The string with the given text.
    pub fn from_text(text: &str) -> (r: Json)
        ensures
            r@ == JsonView::Str(text@),
    {
        Json::Str(String::from_str(text))
    }

    /// The string with the given text, or null where there is none.
    pub fn from_optional_text(text: &Option<String>) -> (r: Json)
        ensures
            r@ == optional_text(opt_text(*text)),
    {
        match text {
            Some(text) => Json::Str(text.clone()),
            None => Json::Null,
        }
    }

    /// The array of the given texts, each as a string.
    pub fn from_texts(strings: &Vec<String>) -> (r: Json)
        ensures
            r@ == text_array(texts(strings@)),
    {
        let mut items: Vec<Json> = Vec::new();
        let mut i: usize = 0;
        while i < strings.len()
            invariant
                i <= strings.len(),
                items.len() == i,
                forall|k: int| 0 <= k < i ==> (#[trigger] items[k])@ == JsonView::Str(strings[k]@),
            decreases strings.len() - i,
        {
            items.push(Json::Str(strings[i].clone()));
            i += 1;
        }
        assert(views(items@) =~= texts(strings@).map_values(|text: Seq<char>| JsonView::Str(text)));
        Json::Array(items)
    }

    /// The array of the given integers.
    pub fn from_ints(values: &Vec<i64>) -> (r: Json)
        ensures
            r@ == int_array(values@),
    {
        let mut items: Vec<Json> = Vec::new();
        let mut i: usize = 0;
        while i < values.len()
            invariant
                i <= values.len(),
                items.len() == i,
                forall|k: int|
                    0 <= k < i ==> (#[trigger] items[k])@ == JsonView::Number(values[k] as int),
            decreases values.len() - i,
        {
            items.push(Json::Int(values[i]));
            i += 1;
        }
        assert(views(items@) =~= values@.map_values(|n: i64| JsonView::Number(n as int)));
        Json::Array(items)
    }

    /// The value of the member named `key`, where the document is an object
    /// that has one.
    pub fn get(&self, key: &str) -> (r: Option<&Json>)
        ensures
            match r {
                Some(value) => self@.member(key@) == Some(value@),
                None => self@.member(key@) is None,
            },
    {
        match self {
            Json::Object(members) => {
                let wanted = String::from_str(key);
                let ghost all = member_views(members@);
                let mut i: usize = 0;
                while i < members.len()
                    invariant
                        i <= members.len(),
                        wanted@ == key@,
                        all == member_views(members@),
                        self@ == JsonView::Object(all),
                        first_member(all, key@, 0) == first_member(all, key@, i as int),
                    decreases members.len() - i,
                {
                    assert(all[i as int] == (members[i as int].0@, members[i as int].1@));
                    if members[i].0 == wanted {
                        return Some(&members[i].1);
                    }
                    i += 1;
                }
                None
            },
            _ => None,
        }
    }

    /// The text, where the document is a string.
    pub fn as_str(&self) -> (r: Option<&str>)
        ensures
            match r {
                Some(text) => self@ == JsonView::Str(text@),
                None => !(self@ is Str),
            },
    {
        match self {
            Json::Str(text) => Some(text.as_str()),
            _ => None,
        }
    }

    /// The truth value, where the document is one.
    pub fn as_bool(&self) -> (r: Option<bool>)
        ensures
            match r {
                Some(b) => self@ == JsonView::Bool(b),
                None => !(self@ is Bool),
            },
    {
        match self {
            Json::Bool(b) => Some(*b),
            _ => None,
        }
    }

    /// The number, where the document is an integer in the range of `i64`.
    pub fn as_i64(&self) -> (r: Option<i64>)
        ensures
            r == self@.as_i64(),
    {
        match self {
            Json::Int(n) => Some(*n),
            Json::UInt(n) => if *n <= 0x7fff_ffff_ffff_ffff {
                Some(*n as i64)
            } else {
                None
            },
            _ => None,
        }
    }

    /// The number, where the document is an integer in the range of `u64`.
    pub fn as_u64(&self) -> (r: Option<u64>)
        ensures
            r == self@.as_u64(),
    {
        match self {
            Json::UInt(n) => Some(*n),
            Json::Int(n) => if *n >= 0 {
                Some(*n as u64)
            } else {
                None
            },
            _ => None,
        }
    }

    /// The elements, where the document is an array.
    pub fn as_array(&self) -> (r: Option<&Vec<Json>>)
        ensures
            match r {
                Some(items) => self@ == JsonView::Array(views(items@)),
                None => !(self@ is Array),
            },
    {
        match self {
            Json::Array(items) => Some(items),
            _ => None,
        }
    }

    /// The members, where the document is an object.
    pub fn as_object(&self) -> (r: Option<&Vec<(String, Json)>>)
        ensures
            match r {
                Some(members) => self@ == JsonView::Object(member_views(members@)),
                None => !(self@ is Object),
            },
    {
        match self {
            Json::Object(members) => Some(members),
            _ => None,
        }
    }
}

} // verus!
