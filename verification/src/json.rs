//! JSON documents as plain values, and the parser that produces them.

use vstd::prelude::*;
use vstd::string::*;
use crate::text::{integer_text, str_equal, write_integer};

verus! {

/// A JSON value. The entries of an object are kept in the order in which
/// the parser hands them out.
#[derive(Debug, PartialEq, Eq)]
pub enum JsonValue {
    Null,
    Bool(bool),
    /// A number that is an integer of 64 bits.
    Integer(i64),
    /// Any other number, as its decimal text.
    Decimal(String),
    String(String),
    Array(Vec<JsonValue>),
    Object(Vec<(String, JsonValue)>),
}

/// The plain form of a [`JsonValue`].
pub enum JsonView {
    Null,
    Bool(bool),
    Integer(i64),
    Decimal(Seq<char>),
    String(Seq<char>),
    Array(Seq<JsonView>),
    Object(Seq<(Seq<char>, JsonView)>),
}

/// The plain form of a value.
pub open spec fn plain(value: JsonValue) -> JsonView
    decreases value,
{
    match value {
        JsonValue::Null => JsonView::Null,
        JsonValue::Bool(flag) => JsonView::Bool(flag),
        JsonValue::Integer(number) => JsonView::Integer(number),
        JsonValue::Decimal(text) => JsonView::Decimal(text@),
        JsonValue::String(text) => JsonView::String(text@),
        JsonValue::Array(items) => JsonView::Array(
            Seq::new(
                items@.len(),
                |i: int|
                    if 0 <= i < items@.len() {
                        plain(items@[i])
                    } else {
                        JsonView::Null
                    },
            ),
        ),
        JsonValue::Object(entries) => JsonView::Object(
            Seq::new(
                entries@.len(),
                |i: int|
                    if 0 <= i < entries@.len() {
                        (entries@[i].0@, plain(entries@[i].1))
                    } else {
                        (Seq::empty(), JsonView::Null)
                    },
            ),
        ),
    }
}

impl DeepView for JsonValue {
    type V = JsonView;

    open spec fn deep_view(&self) -> JsonView {
        plain(*self)
    }
}

impl View for JsonValue {
    type V = JsonView;

    open spec fn view(&self) -> JsonView {
        plain(*self)
    }
}

/// The plain forms of a list of values, in order.
pub open spec fn items_view(items: Seq<JsonValue>) -> Seq<JsonView> {
    Seq::new(items.len(), |i: int| items[i]@)
}

/// The plain forms of the entries of an object, in order.
pub open spec fn entries_view(entries: Seq<(String, JsonValue)>) -> Seq<(Seq<char>, JsonView)> {
    Seq::new(entries.len(), |i: int| (entries[i].0@, entries[i].1@))
}

/// The view of an array is the array of the views of its items.
pub proof fn lemma_array_view(items: Vec<JsonValue>)
    ensures
        JsonValue::Array(items)@ == JsonView::Array(items_view(items@)),
{
    let whole = JsonValue::Array(items);
    assert(whole@ is Array);
    assert(whole@->Array_0.len() == items@.len());
    assert forall|i: int| 0 <= i < items@.len() implies whole@->Array_0[i] == items_view(items@)[i] by {
    }
    assert(JsonValue::Array(items)@->Array_0 =~= items_view(items@));
}

/// The view of an object is the object of the views of its entries.
pub proof fn lemma_object_view(entries: Vec<(String, JsonValue)>)
    ensures
        JsonValue::Object(entries)@ == JsonView::Object(entries_view(entries@)),
{
    assert(JsonValue::Object(entries)@->Object_0 =~= entries_view(entries@));
}

/// The value of the first entry of an object that is named `key`.
pub open spec fn lookup(entries: Seq<(Seq<char>, JsonView)>, key: Seq<char>) -> Option<JsonView>
    decreases entries.len(),
{
    if entries.len() == 0 {
        None
    } else if entries[0].0 == key {
        Some(entries[0].1)
    } else {
        lookup(entries.skip(1), key)
    }
}

/// Whether an object has an entry named `key`.
pub open spec fn has_key(entries: Seq<(Seq<char>, JsonView)>, key: Seq<char>) -> bool {
    lookup(entries, key) is Some
}

/// The value of the first entry of `entries` that is named `key`.
pub fn find_entry<'a>(entries: &'a Vec<(String, JsonValue)>, key: &str) -> (found: Option<
    &'a JsonValue,
>)
    ensures
        match found {
            Some(value) => lookup(entries_view(entries@), key@) == Some(value@),
            None => lookup(entries_view(entries@), key@) is None,
        },
{
    let ghost all = entries_view(entries@);
    let mut i: usize = 0;
    proof {
        assert(all.skip(0) =~= all);
    }
    while i < entries.len()
        invariant
            i <= entries.len(),
            all == entries_view(entries@),
            lookup(all, key@) == lookup(all.skip(i as int), key@),
        decreases entries.len() - i,
    {
        if str_equal(entries[i].0.as_str(), key) {
            return Some(&entries[i].1);
        }
        proof {
            assert(all.skip(i as int).skip(1) =~= all.skip(i + 1));
        }
        i += 1;
    }
    None
}

/// A JSON value as `serde_json` holds it.
#[verifier::external_type_specification]
#[verifier::external_body]
pub struct ExSerdeValue(serde_json::Value);

/// The document that `serde_json::from_str` reads from `text` as a
/// `serde_json::Value`, in plain form; nothing where it reports an error.
pub uninterp spec fn parsed_document(text: Seq<char>) -> Option<JsonView>;

/// Turns a `serde_json::Value` into a [`JsonValue`], variant by variant. A
/// number becomes an integer where `serde_json::Number::as_i64` gives one,
/// otherwise its text; the entries of an object keep the order in which
/// `serde_json::Map` hands them out.
#[verifier::external_body]
fn from_serde(value: serde_json::Value) -> (converted: JsonValue) {
    match value {
        serde_json::Value::Null => JsonValue::Null,
        serde_json::Value::Bool(flag) => JsonValue::Bool(flag),
        serde_json::Value::Number(number) => match number.as_i64() {
            Some(integer) => JsonValue::Integer(integer),
            None => JsonValue::Decimal(number.to_string()),
        },
        serde_json::Value::String(text) => JsonValue::String(text),
        serde_json::Value::Array(items) => JsonValue::Array(
            items.into_iter().map(from_serde).collect(),
        ),
        serde_json::Value::Object(entries) => JsonValue::Object(
            entries.into_iter().map(|(key, item)| (key, from_serde(item))).collect(),
        ),
    }
}

/// Parses `text` with `serde_json::from_str`. The result is the document
/// that the parser reads from the text, and nothing where the text is
/// not JSON.
#[verifier::external_body]
pub(crate) fn parse_document(text: &str) -> (document: Option<JsonValue>)
    ensures
        match document {
            Some(value) => parsed_document(text@) == Some(value@),
            None => parsed_document(text@) is None,
        },
{
    match serde_json::from_str::<serde_json::Value>(text) {
        Ok(value) => Some(from_serde(value)),
        Err(_) => None,
    }
}

impl JsonValue {
    /// A copy of this value.
    pub fn duplicate(&self) -> (copy: JsonValue)
        ensures
            copy@ == self@,
        decreases self,
    {
        match self {
            JsonValue::Null => JsonValue::Null,
            JsonValue::Bool(value) => JsonValue::Bool(*value),
            JsonValue::Integer(value) => JsonValue::Integer(*value),
            JsonValue::Decimal(text) => JsonValue::Decimal(text.clone()),
            JsonValue::String(text) => JsonValue::String(text.clone()),
            JsonValue::Array(items) => {
                let mut copies: Vec<JsonValue> = Vec::new();
                let mut i: usize = 0;
                while i < items.len()
                    invariant
                        self is Array && self->Array_0 == *items,
                        i <= items.len(),
                        copies.len() == i,
                        forall|j: int| 0 <= j < i ==> copies[j]@ == items[j]@,
                    decreases items.len() - i,
                {
                    copies.push(items[i].duplicate());
                    i += 1;
                }
                proof {
                    lemma_array_view(*items);
                    lemma_array_view(copies);
                    assert(items_view(copies@) =~= items_view(items@));
                }
                JsonValue::Array(copies)
            },
            JsonValue::Object(entries) => {
                let mut copies: Vec<(String, JsonValue)> = Vec::new();
                let mut i: usize = 0;
                while i < entries.len()
                    invariant
                        self is Object && self->Object_0 == *entries,
                        i <= entries.len(),
                        copies.len() == i,
                        forall|j: int|
                            0 <= j < i ==> copies[j].0@ == entries[j].0@ && copies[j].1@
                                == entries[j].1@,
                    decreases entries.len() - i,
                {
                    copies.push((entries[i].0.clone(), entries[i].1.duplicate()));
                    i += 1;
                }
                proof {
                    lemma_object_view(*entries);
                    lemma_object_view(copies);
                    assert(entries_view(copies@) =~= entries_view(entries@));
                }
                JsonValue::Object(copies)
            },
        }
    }
}

/// A value as it is shown to the user: a scalar as it is written, a
/// string between quotation marks, and a list or an object by its kind.
pub open spec fn shown(value: JsonView) -> Seq<char> {
    match value {
        JsonView::Null => "null"@,
        JsonView::Bool(flag) => if flag {
            "true"@
        } else {
            "false"@
        },
        JsonView::Integer(number) => integer_text(number as int),
        JsonView::Decimal(text) => text,
        JsonView::String(text) => "\""@ + text + "\""@,
        JsonView::Array(_) => "a list"@,
        JsonView::Object(_) => "an object"@,
    }
}

impl JsonValue {
    /// The value as it is shown to the user.
    pub fn show(&self) -> (text: String)
        ensures
            text@ == shown(self@),
    {
        match self {
            JsonValue::Null => "null".to_owned(),
            JsonValue::Bool(flag) => if *flag {
                "true".to_owned()
            } else {
                "false".to_owned()
            },
            JsonValue::Integer(number) => write_integer(*number),
            JsonValue::Decimal(text) => text.clone(),
            JsonValue::String(text) => {
                let mut shown = "\"".to_owned();
                shown.append(text.as_str());
                shown.append("\"");
                shown
            },
            JsonValue::Array(_) => "a list".to_owned(),
            JsonValue::Object(_) => "an object".to_owned(),
        }
    }
}

} // verus!
