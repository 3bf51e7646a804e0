//! Reading the items of a configuration object, each against the type
//! that is expected of it.

use vstd::prelude::*;
use vstd::string::*;
use crate::configuration::error::{
    result_view, ConfigurationError, ConfigurationErrorView, ExpectedType,
};
use crate::configuration::platform_aware::{PlatformAware, PlatformAwareView};
use crate::json::{
    entries_view, find_entry, items_view, lemma_array_view, lemma_object_view, lookup, JsonValue,
    JsonView,
};

verus! {

/// The entries of a JSON object, in plain form.
pub type Entries = Seq<(Seq<char>, JsonView)>;

/// What reading an item gives: a value, or the failure that ends the
/// decoding.
pub type Decoded<T> = Result<T, ConfigurationErrorView>;

/// The failure for an item that does not have its expected type.
pub open spec fn mismatch(name: Seq<char>, expected: ExpectedType, actual: JsonView)
    -> ConfigurationErrorView {
    ConfigurationErrorView::InvalidField { field: name, expected, actual }
}

/// Whether every item of a list is a string.
pub open spec fn is_string_list(items: Seq<JsonView>) -> bool {
    forall|i: int| 0 <= i < items.len() ==> #[trigger] items[i] is String
}

/// The strings of a list of strings.
pub open spec fn strings_of(items: Seq<JsonView>) -> Seq<Seq<char>> {
    Seq::new(items.len(), |i: int| items[i]->String_0)
}

/// Whether every entry of an object holds a string.
pub open spec fn is_string_dict(entries: Entries) -> bool {
    forall|i: int| 0 <= i < entries.len() ==> (#[trigger] entries[i]).1 is String
}

/// The pairs of a dictionary of strings.
pub open spec fn string_pairs_of(entries: Entries) -> Seq<(Seq<char>, Seq<char>)> {
    Seq::new(entries.len(), |i: int| (entries[i].0, entries[i].1->String_0))
}

/// An item that may be absent, or null, and is otherwise a string.
pub open spec fn optional_string(entries: Entries, name: Seq<char>) -> Decoded<Option<Seq<char>>> {
    match lookup(entries, name) {
        None => Ok(None),
        Some(JsonView::Null) => Ok(None),
        Some(JsonView::String(text)) => Ok(Some(text)),
        Some(other) => Err(mismatch(name, ExpectedType::String, other)),
    }
}

/// An item that must be there and be a string. An absent item fails as
/// a null one does.
pub open spec fn required_string(entries: Entries, name: Seq<char>) -> Decoded<Seq<char>> {
    match lookup(entries, name) {
        None => Err(mismatch(name, ExpectedType::String, JsonView::Null)),
        Some(JsonView::String(text)) => Ok(text),
        Some(other) => Err(mismatch(name, ExpectedType::String, other)),
    }
}

/// An item that may be absent, or null, and is otherwise a boolean.
pub open spec fn optional_bool(entries: Entries, name: Seq<char>) -> Decoded<Option<bool>> {
    match lookup(entries, name) {
        None => Ok(None),
        Some(JsonView::Null) => Ok(None),
        Some(JsonView::Bool(flag)) => Ok(Some(flag)),
        Some(other) => Err(mismatch(name, ExpectedType::Bool, other)),
    }
}

/// An item that may be absent, or null, and is otherwise an integer of
/// 32 bits.
pub open spec fn optional_integer(entries: Entries, name: Seq<char>) -> Decoded<Option<i32>> {
    match lookup(entries, name) {
        None => Ok(None),
        Some(JsonView::Null) => Ok(None),
        Some(JsonView::Integer(number)) if i32::MIN <= number <= i32::MAX => Ok(
            Some(number as i32),
        ),
        Some(other) => Err(mismatch(name, ExpectedType::Integer, other)),
    }
}

/// An item that is a list of strings, empty when absent. Where
/// `allow_single_string` holds, a string stands for the list of itself.
pub open spec fn string_list(entries: Entries, name: Seq<char>, allow_single_string: bool)
    -> Decoded<Seq<Seq<char>>> {
    match lookup(entries, name) {
        None => Ok(Seq::empty()),
        Some(JsonView::String(text)) if allow_single_string => Ok(seq![text]),
        Some(JsonView::Array(items)) if is_string_list(items) => Ok(strings_of(items)),
        Some(other) => Err(mismatch(name, ExpectedType::StringList, other)),
    }
}

/// An item that may be absent, or null, and is otherwise a list of
/// strings.
pub open spec fn optional_string_list(entries: Entries, name: Seq<char>) -> Decoded<
    Option<Seq<Seq<char>>>,
> {
    match lookup(entries, name) {
        None => Ok(None),
        Some(JsonView::Null) => Ok(None),
        Some(JsonView::Array(items)) if is_string_list(items) => Ok(Some(strings_of(items))),
        Some(other) => Err(mismatch(name, ExpectedType::StringList, other)),
    }
}

/// An item that may be absent, or null, and is otherwise a string or a
/// dictionary of strings.
pub open spec fn optional_string_or_string_dict(entries: Entries, name: Seq<char>) -> Decoded<
    Option<PlatformAwareView>,
> {
    match lookup(entries, name) {
        None => Ok(None),
        Some(JsonView::Null) => Ok(None),
        Some(JsonView::String(text)) => Ok(Some(PlatformAwareView::Single(text))),
        Some(JsonView::Object(pairs)) if is_string_dict(pairs) => Ok(
            Some(PlatformAwareView::PerPlatform(string_pairs_of(pairs))),
        ),
        Some(other) => Err(mismatch(name, ExpectedType::StringOrStringDict, other)),
    }
}

/// An item that is a list, empty when absent.
pub open spec fn list(entries: Entries, name: Seq<char>) -> Decoded<Seq<JsonView>> {
    match lookup(entries, name) {
        None => Ok(Seq::empty()),
        Some(JsonView::Array(items)) => Ok(items),
        Some(other) => Err(mismatch(name, ExpectedType::List, other)),
    }
}

/// An item that may be absent, or null, and is otherwise an object.
pub open spec fn optional_object(entries: Entries, name: Seq<char>) -> Decoded<Option<Entries>> {
    match lookup(entries, name) {
        None => Ok(None),
        Some(JsonView::Null) => Ok(None),
        Some(JsonView::Object(inner)) => Ok(Some(inner)),
        Some(other) => Err(mismatch(name, ExpectedType::Object, other)),
    }
}

/// The failure for the item `name` whose value `actual` does not have
/// its expected type.
pub fn invalid_field(name: &str, expected: ExpectedType, actual: &JsonValue) -> (error:
    ConfigurationError)
    ensures
        error@ == mismatch(name@, expected, actual@),
{
    ConfigurationError::InvalidField { field: name.to_owned(), expected, actual: actual.duplicate() }
}

/// The strings of `items`, when every one of them is a string.
pub fn strings_from(items: &Vec<JsonValue>) -> (strings: Option<Vec<String>>)
    ensures
        match strings {
            Some(list) => is_string_list(items_view(items@)) && list.deep_view() == strings_of(
                items_view(items@),
            ),
            None => !is_string_list(items_view(items@)),
        },
{
    let mut list: Vec<String> = Vec::new();
    let mut i: usize = 0;
    while i < items.len()
        invariant
            i <= items.len(),
            list.len() == i,
            forall|j: int| 0 <= j < i ==> (#[trigger] items_view(items@)[j]) is String,
            forall|j: int| 0 <= j < i ==> list[j]@ == items_view(items@)[j]->String_0,
        decreases items.len() - i,
    {
        match &items[i] {
            JsonValue::String(text) => {
                list.push(text.clone());
            },
            _ => {
                assert(!(items_view(items@)[i as int] is String));
                return None;
            },
        }
        i += 1;
    }
    assert(list.deep_view() =~= strings_of(items_view(items@)));
    Some(list)
}

/// The pairs of `entries`, when every one of them holds a string.
pub fn string_pairs_from(entries: &Vec<(String, JsonValue)>) -> (pairs: Option<
    Vec<(String, String)>,
>)
    ensures
        match pairs {
            Some(list) => is_string_dict(entries_view(entries@)) && list.deep_view()
                == string_pairs_of(entries_view(entries@)),
            None => !is_string_dict(entries_view(entries@)),
        },
{
    let mut list: Vec<(String, String)> = Vec::new();
    let mut i: usize = 0;
    while i < entries.len()
        invariant
            i <= entries.len(),
            list.len() == i,
            forall|j: int| 0 <= j < i ==> (#[trigger] entries_view(entries@)[j]).1 is String,
            forall|j: int|
                0 <= j < i ==> list[j].0@ == entries_view(entries@)[j].0 && list[j].1@
                    == entries_view(entries@)[j].1->String_0,
        decreases entries.len() - i,
    {
        match &entries[i].1 {
            JsonValue::String(text) => {
                list.push((entries[i].0.clone(), text.clone()));
            },
            _ => {
                assert(!(entries_view(entries@)[i as int].1 is String));
                return None;
            },
        }
        i += 1;
    }
    assert(list.deep_view() =~= string_pairs_of(entries_view(entries@)));
    Some(list)
}

/// Reads an optional string.
pub fn read_optional_string(entries: &Vec<(String, JsonValue)>, name: &str) -> (result: Result<
    Option<String>,
    ConfigurationError,
>)
    ensures
        result_view(result) == optional_string(entries_view(entries@), name@),
{
    match find_entry(entries, name) {
        None => Ok(None),
        Some(JsonValue::Null) => Ok(None),
        Some(JsonValue::String(text)) => Ok(Some(text.clone())),
        Some(other) => Err(invalid_field(name, ExpectedType::String, other)),
    }
}

/// Reads a string that must be there.
pub fn read_required_string(entries: &Vec<(String, JsonValue)>, name: &str) -> (result: Result<
    String,
    ConfigurationError,
>)
    ensures
        result_view(result) == required_string(entries_view(entries@), name@),
{
    match find_entry(entries, name) {
        None => Err(invalid_field(name, ExpectedType::String, &JsonValue::Null)),
        Some(JsonValue::String(text)) => Ok(text.clone()),
        Some(other) => Err(invalid_field(name, ExpectedType::String, other)),
    }
}

/// Reads an optional boolean.
pub fn read_optional_bool(entries: &Vec<(String, JsonValue)>, name: &str) -> (result: Result<
    Option<bool>,
    ConfigurationError,
>)
    ensures
        result_view(result) == optional_bool(entries_view(entries@), name@),
{
    match find_entry(entries, name) {
        None => Ok(None),
        Some(JsonValue::Null) => Ok(None),
        Some(JsonValue::Bool(flag)) => Ok(Some(*flag)),
        Some(other) => Err(invalid_field(name, ExpectedType::Bool, other)),
    }
}

/// Reads an optional integer of 32 bits.
pub fn read_optional_integer(entries: &Vec<(String, JsonValue)>, name: &str) -> (result: Result<
    Option<i32>,
    ConfigurationError,
>)
    ensures
        result_view(result) == optional_integer(entries_view(entries@), name@),
{
    match find_entry(entries, name) {
        None => Ok(None),
        Some(JsonValue::Null) => Ok(None),
        Some(other) => {
            match other {
                JsonValue::Integer(number) => {
                    if -2147483648 <= *number && *number <= 2147483647 {
                        return Ok(Some(*number as i32));
                    }
                },
                _ => {},
            }
            Err(invalid_field(name, ExpectedType::Integer, other))
        },
    }
}

/// Reads a list of strings.
pub fn read_string_list(
    entries: &Vec<(String, JsonValue)>,
    name: &str,
    allow_single_string: bool,
) -> (result: Result<Vec<String>, ConfigurationError>)
    ensures
        result_view(result) == string_list(entries_view(entries@), name@, allow_single_string),
{
    match find_entry(entries, name) {
        None => {
            let nothing: Vec<String> = Vec::new();
            assert(nothing.deep_view() =~= Seq::<Seq<char>>::empty());
            Ok(nothing)
        },
        Some(other) => {
            match other {
                JsonValue::String(text) => {
                    if allow_single_string {
                        let mut single: Vec<String> = Vec::new();
                        single.push(text.clone());
                        assert(single.deep_view() =~= seq![text@]);
                        return Ok(single);
                    }
                },
                JsonValue::Array(items) => {
                    proof {
                        lemma_array_view(*items);
                    }
                    match strings_from(items) {
                        Some(strings) => {
                            return Ok(strings);
                        },
                        None => {},
                    }
                },
                _ => {},
            }
            Err(invalid_field(name, ExpectedType::StringList, other))
        },
    }
}

/// Reads an optional list of strings.
pub fn read_optional_string_list(entries: &Vec<(String, JsonValue)>, name: &str) -> (result:
    Result<Option<Vec<String>>, ConfigurationError>)
    ensures
        result_view(result) == optional_string_list(entries_view(entries@), name@),
{
    match find_entry(entries, name) {
        None => Ok(None),
        Some(JsonValue::Null) => Ok(None),
        Some(other) => {
            match other {
                JsonValue::Array(items) => {
                    proof {
                        lemma_array_view(*items);
                    }
                    match strings_from(items) {
                        Some(strings) => {
                            return Ok(Some(strings));
                        },
                        None => {},
                    }
                },
                _ => {},
            }
            Err(invalid_field(name, ExpectedType::StringList, other))
        },
    }
}

/// Reads an optional string or dictionary of strings.
pub fn read_optional_string_or_string_dict(entries: &Vec<(String, JsonValue)>, name: &str)
    -> (result: Result<Option<PlatformAware>, ConfigurationError>)
    ensures
        result_view(result) == optional_string_or_string_dict(entries_view(entries@), name@),
{
    match find_entry(entries, name) {
        None => Ok(None),
        Some(JsonValue::Null) => Ok(None),
        Some(JsonValue::String(text)) => Ok(Some(PlatformAware::Single(text.clone()))),
        Some(other) => {
            match other {
                JsonValue::Object(pairs) => {
                    proof {
                        lemma_object_view(*pairs);
                    }
                    match string_pairs_from(pairs) {
                        Some(values) => {
                            return Ok(Some(PlatformAware::PerPlatform(values)));
                        },
                        None => {},
                    }
                },
                _ => {},
            }
            Err(invalid_field(name, ExpectedType::StringOrStringDict, other))
        },
    }
}

/// The plain form of the result of reading a list.
pub open spec fn list_view(result: Result<&Vec<JsonValue>, ConfigurationError>) -> Decoded<
    Seq<JsonView>,
> {
    match result {
        Ok(items) => Ok(items_view(items@)),
        Err(error) => Err(error@),
    }
}

/// Reads a list.
pub(crate) fn read_list<'a>(entries: &'a Vec<(String, JsonValue)>, name: &str, nothing: &'a Vec<
    JsonValue,
>) -> (result: Result<&'a Vec<JsonValue>, ConfigurationError>)
    requires
        nothing@.len() == 0,
    ensures
        list_view(result) == list(entries_view(entries@), name@),
{
    match find_entry(entries, name) {
        None => {
            assert(items_view(nothing@) =~= Seq::<JsonView>::empty());
            Ok(nothing)
        },
        Some(JsonValue::Array(items)) => {
            proof {
                lemma_array_view(*items);
            }
            Ok(items)
        },
        Some(other) => Err(invalid_field(name, ExpectedType::List, other)),
    }
}

/// The plain form of the result of reading an object.
pub open spec fn object_view(
    result: Result<Option<&Vec<(String, JsonValue)>>, ConfigurationError>,
) -> Decoded<Option<Entries>> {
    match result {
        Ok(Some(inner)) => Ok(Some(entries_view(inner@))),
        Ok(None) => Ok(None),
        Err(error) => Err(error@),
    }
}

/// Reads an optional object.
pub fn read_optional_object<'a>(entries: &'a Vec<(String, JsonValue)>, name: &str) -> (result:
    Result<Option<&'a Vec<(String, JsonValue)>>, ConfigurationError>)
    ensures
        object_view(result) == optional_object(entries_view(entries@), name@),
{
    match find_entry(entries, name) {
        None => Ok(None),
        Some(JsonValue::Null) => Ok(None),
        Some(JsonValue::Object(inner)) => {
            proof {
                lemma_object_view(*inner);
            }
            Ok(Some(inner))
        },
        Some(other) => Err(invalid_field(name, ExpectedType::Object, other)),
    }
}

} // verus!
