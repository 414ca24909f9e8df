//! JSON documents as plain values, and reading them from bytes.
use vstd::prelude::*;

verus! {

/// A JSON document. An object keeps its members in the order in which
/// `serde_json` lists them; a number keeps its text.
#[derive(Debug)]
pub enum Json {
    Null,
    Bool(bool),
    Number(String),
    Text(String),
    Array(Vec<Json>),
    Object(Vec<(String, Json)>),
}

/// A JSON document as a mathematical value.
pub enum JsonView {
    Null,
    Bool(bool),
    Number(Seq<char>),
    Text(Seq<char>),
    Array(Seq<JsonView>),
    Object(Seq<(Seq<char>, JsonView)>),
}

impl View for Json {
    type V = JsonView;

    open spec fn view(&self) -> JsonView {
        json_view(*self)
    }
}

pub open spec fn json_view(json: Json) -> JsonView
    decreases json,
{
    match json {
        Json::Null => JsonView::Null,
        Json::Bool(b) => JsonView::Bool(b),
        Json::Number(n) => JsonView::Number(n@),
        Json::Text(t) => JsonView::Text(t@),
        Json::Array(items) => JsonView::Array(item_views(items@)),
        Json::Object(members) => JsonView::Object(member_views(members@)),
    }
}

pub open spec fn item_views(items: Seq<Json>) -> Seq<JsonView>
    decreases items,
{
    if items.len() == 0 {
        Seq::empty()
    } else {
        item_views(items.drop_last()).push(json_view(items.last()))
    }
}

pub open spec fn member_views(members: Seq<(String, Json)>) -> Seq<(Seq<char>, JsonView)>
    decreases members,
{
    if members.len() == 0 {
        Seq::empty()
    } else {
        member_views(members.drop_last()).push((members.last().0@, json_view(members.last().1)))
    }
}

proof fn item_views_index(items: Seq<Json>)
    ensures
        item_views(items).len() == items.len(),
        forall|i: int| 0 <= i < items.len() ==> #[trigger] item_views(items)[i] == items[i]@,
    decreases items.len(),
{
    if items.len() > 0 {
        item_views_index(items.drop_last());
    }
}

proof fn member_views_index(members: Seq<(String, Json)>)
    ensures
        member_views(members).len() == members.len(),
        forall|i: int|
            0 <= i < members.len() ==> #[trigger] member_views(members)[i] == (
                members[i].0@,
                members[i].1@,
            ),
    decreases members.len(),
{
    if members.len() > 0 {
        member_views_index(members.drop_last());
    }
}

/// The value of the first member named `key`.
pub open spec fn first_member(members: Seq<(Seq<char>, JsonView)>, key: Seq<char>) -> Option<
    JsonView,
>
    decreases members.len(),
{
    if members.len() == 0 {
        None
    } else if members.first().0 == key {
        Some(members.first().1)
    } else {
        first_member(members.drop_first(), key)
    }
}

impl JsonView {
    /// The member named `key` of an object.
    pub open spec fn get(self, key: Seq<char>) -> Option<JsonView> {
        match self {
            JsonView::Object(members) => first_member(members, key),
            _ => None,
        }
    }

    /// The member named `key`, or null where there is none.
    pub open spec fn at(self, key: Seq<char>) -> JsonView {
        match self.get(key) {
            Some(value) => value,
            None => JsonView::Null,
        }
    }

    /// The characters of a string.
    pub open spec fn as_text(self) -> Option<Seq<char>> {
        match self {
            JsonView::Text(text) => Some(text),
            _ => None,
        }
    }

    pub open spec fn as_bool(self) -> Option<bool> {
        match self {
            JsonView::Bool(b) => Some(b),
            _ => None,
        }
    }

    /// The items of an array.
    pub open spec fn as_items(self) -> Option<Seq<JsonView>> {
        match self {
            JsonView::Array(items) => Some(items),
            _ => None,
        }
    }
}

impl Json {
    /// The member named `key` of an object.
    pub fn get(&self, key: &str) -> (value: Option<&Json>)
        ensures
            match value {
                Some(v) => self@.get(key@) == Some(v@),
                None => self@.get(key@) is None,
            },
    {
        match self {
            Json::Object(members) => {
                let mut i: usize = 0;
                proof {
                    member_views_index(members@);
                    assert(member_views(members@).skip(0) =~= member_views(members@));
                }
                let wanted = key.to_owned();
                while i < members.len()
                    invariant
                        i <= members@.len(),
                        wanted@ == key@,
                        self@ == JsonView::Object(member_views(members@)),
                        member_views(members@).len() == members@.len(),
                        forall|k: int|
                            0 <= k < members@.len() ==> #[trigger] member_views(members@)[k] == (
                                members@[k].0@,
                                members@[k].1@,
                            ),
                        self@.get(key@) == first_member(member_views(members@).skip(i as int), key@),
                    decreases members@.len() - i,
                {
                    assert(member_views(members@).skip(i as int).first() == (
                        members@[i as int].0@,
                        members@[i as int].1@,
                    ));
                    assert(member_views(members@).skip(i as int).drop_first() =~= member_views(
                        members@,
                    ).skip(i + 1));
                    if members[i].0 == wanted {
                        return Some(&members[i].1);
                    }
                    i += 1;
                }
                None
            },
            _ => None,
        }
    }

    /// The characters of a string.
    pub fn as_str(&self) -> (text: Option<&str>)
        ensures
            match text {
                Some(t) => self@.as_text() == Some(t@),
                None => self@.as_text() is None,
            },
    {
        match self {
            Json::Text(text) => Some(text.as_str()),
            _ => None,
        }
    }

    pub fn as_bool(&self) -> (value: Option<bool>)
        ensures
            value == self@.as_bool(),
    {
        match self {
            Json::Bool(b) => Some(*b),
            _ => None,
        }
    }

    /// The items of an array.
    pub fn as_array(&self) -> (items: Option<&Vec<Json>>)
        ensures
            match items {
                Some(v) => self@.as_items() == Some(item_views(v@)) && item_views(v@).len()
                    == v@.len() && forall|i: int|
                    0 <= i < v@.len() ==> #[trigger] item_views(v@)[i] == v@[i]@,
                None => self@.as_items() is None,
            },
    {
        match self {
            Json::Array(items) => {
                proof {
                    item_views_index(items@);
                }
                Some(items)
            },
            _ => None,
        }
    }

    pub fn is_object(&self) -> (object: bool)
        ensures
            object == (self@ is Object),
    {
        match self {
            Json::Object(_) => true,
            _ => false,
        }
    }
}

#[verifier::external_type_specification]
#[verifier::external_body]
pub struct ExValue(serde_json::Value);

/// The document that a `serde_json::Value` holds.
pub uninterp spec fn value_contents(value: serde_json::Value) -> JsonView;

/// The document that `serde_json::from_slice` reads from bytes where they are
/// JSON, and the text of its error where they are not.
pub uninterp spec fn json_document(bytes: Seq<u8>) -> Result<JsonView, Seq<char>>;

/// `serde_json::from_slice`, for any document: it succeeds on the bytes of a
/// JSON document, which it returns. Of its error the text is kept.
#[verifier::external_body]
fn value_from_slice(bytes: &[u8]) -> (value: Result<serde_json::Value, String>)
    ensures
        match value {
            Ok(v) => json_document(bytes@) == Ok::<_, Seq<char>>(value_contents(v)),
            Err(why) => json_document(bytes@) == Err::<JsonView, _>(why@),
        },
{
    serde_json::from_slice(bytes).map_err(|e: serde_json::Error| e.to_string())
}

/// Takes a `serde_json::Value` apart, variant by variant: the result holds the
/// same document.
#[verifier::external_body]
fn json_of(value: serde_json::Value) -> (json: Json)
    ensures
        json@ == value_contents(value),
{
    match value {
        serde_json::Value::Null => Json::Null,
        serde_json::Value::Bool(b) => Json::Bool(b),
        serde_json::Value::Number(n) => Json::Number(n.to_string()),
        serde_json::Value::String(s) => Json::Text(s),
        serde_json::Value::Array(a) => Json::Array(a.into_iter().map(json_of).collect()),
        serde_json::Value::Object(o) => {
            Json::Object(o.into_iter().map(|(k, v)| (k, json_of(v))).collect())
        },
    }
}

/// Reads a JSON document, or says in words why the bytes are none.
pub fn parse(bytes: &[u8]) -> (json: Result<Json, String>)
    ensures
        match json {
            Ok(j) => json_document(bytes@) == Ok::<_, Seq<char>>(j@),
            Err(why) => json_document(bytes@) == Err::<JsonView, _>(why@),
        },
{
    match value_from_slice(bytes) {
        Ok(value) => Ok(json_of(value)),
        Err(why) => Err(why),
    }
}

} // verus!
