//! What a run of the checker comes to, given how its process ended and
//! what it printed.

use vstd::prelude::*;
use vstd::string::*;
use crate::json::{
    entries_view, find_entry, items_view, lemma_array_view, lemma_object_view, lookup,
    parse_document, parsed_document, JsonValue, JsonView,
};

verus! {

/// What is said of a process that could not be started or waited for.
pub const IO_FAILURE: &'static str = "I/O error";

/// What is said of a checker that ended without success.
pub const COMMAND_FAILED: &'static str = "Command failed";

/// What is said of a checker that found type errors.
pub const TYPE_ERRORS_FOUND: &'static str = "Had some type errors";

/// What is said of a checker whose output is not a list of type errors.
pub const RESPONSE_FAILURE: &'static str = "Cannot parse response as JSON";

/// A check that did not end well.
#[derive(Debug)]
pub struct CheckError {
    pub msg: &'static str,
}

/// A type error that the checker reports.
#[derive(Debug, PartialEq, Eq)]
pub struct TypeError {
    pub line: i32,
    pub column: i32,
    pub stop_line: i32,
    pub stop_column: i32,
    pub path: String,
    pub code: i32,
    pub name: String,
    pub description: String,
    pub long_description: String,
    pub concise_description: String,
}

/// The plain form of a [`TypeError`].
pub struct TypeErrorView {
    pub line: i32,
    pub column: i32,
    pub stop_line: i32,
    pub stop_column: i32,
    pub path: Seq<char>,
    pub code: i32,
    pub name: Seq<char>,
    pub description: Seq<char>,
    pub long_description: Seq<char>,
    pub concise_description: Seq<char>,
}

impl DeepView for TypeError {
    type V = TypeErrorView;

    open spec fn deep_view(&self) -> TypeErrorView {
        TypeErrorView {
            line: self.line,
            column: self.column,
            stop_line: self.stop_line,
            stop_column: self.stop_column,
            path: self.path@,
            code: self.code,
            name: self.name@,
            description: self.description@,
            long_description: self.long_description@,
            concise_description: self.concise_description@,
        }
    }
}

impl View for TypeError {
    type V = TypeErrorView;

    open spec fn view(&self) -> TypeErrorView {
        self.deep_view()
    }
}

/// The integer of 32 bits that the entry `name` of an object holds.
pub open spec fn integer_entry(entries: Seq<(Seq<char>, JsonView)>, name: Seq<char>) -> Option<
    i32,
> {
    match lookup(entries, name) {
        Some(JsonView::Integer(number)) if i32::MIN <= number <= i32::MAX => Some(number as i32),
        _ => None,
    }
}

/// The string that the entry `name` of an object holds.
pub open spec fn string_entry(entries: Seq<(Seq<char>, JsonView)>, name: Seq<char>) -> Option<
    Seq<char>,
> {
    match lookup(entries, name) {
        Some(JsonView::String(text)) => Some(text),
        _ => None,
    }
}

/// The type error that a value describes: an object that holds every one
/// of the ten items with its type.
pub open spec fn type_error_of(value: JsonView) -> Option<TypeErrorView> {
    match value {
        JsonView::Object(entries) => {
            let line = integer_entry(entries, "line"@);
            let column = integer_entry(entries, "column"@);
            let stop_line = integer_entry(entries, "stop_line"@);
            let stop_column = integer_entry(entries, "stop_column"@);
            let path = string_entry(entries, "path"@);
            let code = integer_entry(entries, "code"@);
            let name = string_entry(entries, "name"@);
            let description = string_entry(entries, "description"@);
            let long_description = string_entry(entries, "long_description"@);
            let concise_description = string_entry(entries, "concise_description"@);
            if line is Some && column is Some && stop_line is Some && stop_column is Some && path
                is Some && code is Some && name is Some && description is Some && long_description
                is Some && concise_description is Some {
                Some(
                    TypeErrorView {
                        line: line->0,
                        column: column->0,
                        stop_line: stop_line->0,
                        stop_column: stop_column->0,
                        path: path->0,
                        code: code->0,
                        name: name->0,
                        description: description->0,
                        long_description: long_description->0,
                        concise_description: concise_description->0,
                    },
                )
            } else {
                None
            }
        },
        _ => None,
    }
}

/// The type errors that a list of values describes, when every value
/// describes one.
pub open spec fn type_errors_from(items: Seq<JsonView>) -> Option<Seq<TypeErrorView>>
    decreases items.len(),
{
    if items.len() == 0 {
        Some(Seq::empty())
    } else {
        match (type_errors_from(items.drop_last()), type_error_of(items.last())) {
            (Some(front), Some(error)) => Some(front.push(error)),
            _ => None,
        }
    }
}

/// The type errors that a document reports: it must be a list of type
/// errors.
pub open spec fn response_of(document: JsonView) -> Option<Seq<TypeErrorView>> {
    match document {
        JsonView::Array(items) => type_errors_from(items),
        _ => None,
    }
}

/// The type errors that the output of the checker reports, when it is
/// the JSON text of a list of type errors.
pub open spec fn response_of_text(output: Seq<char>) -> Option<Seq<TypeErrorView>> {
    match parsed_document(output) {
        Some(document) => response_of(document),
        None => None,
    }
}

/// What a check comes to: a failure of the command where the process did
/// not succeed, whatever it printed; otherwise a failure of the response
/// where the output is no list of type errors, success where the list is
/// empty, and a failure of the check where it is not.
pub open spec fn check_result(succeeded: bool, output: Seq<char>) -> Result<(), Seq<char>> {
    if !succeeded {
        Err(COMMAND_FAILED@)
    } else {
        match response_of_text(output) {
            None => Err(RESPONSE_FAILURE@),
            Some(errors) => if errors.len() == 0 {
                Ok(())
            } else {
                Err(TYPE_ERRORS_FOUND@)
            },
        }
    }
}

/// Reads the integer of 32 bits that the entry `name` holds.
fn read_integer_entry(entries: &Vec<(String, JsonValue)>, name: &str) -> (value: Option<i32>)
    ensures
        value == integer_entry(entries_view(entries@), name@),
{
    match find_entry(entries, name) {
        Some(JsonValue::Integer(number)) => {
            if -2147483648 <= *number && *number <= 2147483647 {
                Some(*number as i32)
            } else {
                None
            }
        },
        _ => None,
    }
}

/// Reads the string that the entry `name` holds.
fn read_string_entry(entries: &Vec<(String, JsonValue)>, name: &str) -> (value: Option<String>)
    ensures
        value.deep_view() == string_entry(entries_view(entries@), name@),
{
    match find_entry(entries, name) {
        Some(JsonValue::String(text)) => Some(text.clone()),
        _ => None,
    }
}

impl TypeError {
    /// Reads the type error that a value describes.
    pub fn from_json(value: &JsonValue) -> (error: Option<TypeError>)
        ensures
            error.deep_view() == type_error_of(value@),
    {
        match value {
            JsonValue::Object(entries) => {
                proof {
                    lemma_object_view(*entries);
                }
                let line = read_integer_entry(entries, "line")?;
                let column = read_integer_entry(entries, "column")?;
                let stop_line = read_integer_entry(entries, "stop_line")?;
                let stop_column = read_integer_entry(entries, "stop_column")?;
                let path = read_string_entry(entries, "path")?;
                let code = read_integer_entry(entries, "code")?;
                let name = read_string_entry(entries, "name")?;
                let description = read_string_entry(entries, "description")?;
                let long_description = read_string_entry(entries, "long_description")?;
                let concise_description = read_string_entry(entries, "concise_description")?;
                Some(
                    TypeError {
                        line,
                        column,
                        stop_line,
                        stop_column,
                        path,
                        code,
                        name,
                        description,
                        long_description,
                        concise_description,
                    },
                )
            },
            _ => None,
        }
    }
}

/// Once a front of a list has failed to give type errors, the whole list
/// fails.
pub proof fn lemma_type_errors_fail_for_good(items: Seq<JsonView>, count: int)
    requires
        0 <= count <= items.len(),
        type_errors_from(items.take(count)) is None,
    ensures
        type_errors_from(items) is None,
    decreases items.len() - count,
{
    if count == items.len() {
        assert(items.take(count) =~= items);
    } else {
        assert(items.take(count + 1).drop_last() =~= items.take(count));
        lemma_type_errors_fail_for_good(items, count + 1);
    }
}

/// Reads the type errors that a document reports.
pub fn type_errors_of_document(document: &JsonValue) -> (errors: Option<Vec<TypeError>>)
    ensures
        errors.deep_view() == response_of(document@),
{
    match document {
        JsonValue::Array(items) => {
            proof {
                lemma_array_view(*items);
            }
            let ghost all = items_view(items@);
            let mut errors: Vec<TypeError> = Vec::new();
            let mut i: usize = 0;
            proof {
                assert(all.take(0) =~= Seq::<JsonView>::empty());
                assert(errors.deep_view() =~= Seq::<TypeErrorView>::empty());
            }
            while i < items.len()
                invariant
                    i <= items.len(),
                    all == items_view(items@),
                    document@ == JsonView::Array(all),
                    type_errors_from(all.take(i as int)) == Some(errors.deep_view()),
                decreases items.len() - i,
            {
                let ghost front = errors.deep_view();
                proof {
                    assert(all.take(i + 1).drop_last() =~= all.take(i as int));
                    assert(all.take(i + 1).last() == items[i as int]@);
                }
                match TypeError::from_json(&items[i]) {
                    Some(error) => {
                        errors.push(error);
                        proof {
                            assert(errors.deep_view() =~= front.push(error@));
                        }
                    },
                    None => {
                        proof {
                            lemma_type_errors_fail_for_good(all, i + 1);
                        }
                        return None;
                    },
                }
                i += 1;
            }
            proof {
                assert(all.take(items.len() as int) =~= all);
            }
            Some(errors)
        },
        _ => None,
    }
}

/// Reads the type errors that the output of the checker reports.
pub fn parse_type_error_response(val: &str) -> (response: Result<Vec<TypeError>, CheckError>)
    ensures
        match response_of_text(val@) {
            Some(errors) => response matches Ok(found) && found.deep_view() == errors,
            None => response matches Err(error) && error.msg@ == RESPONSE_FAILURE@,
        },
{
    match parse_document(val) {
        Some(document) => match type_errors_of_document(&document) {
            Some(errors) => Ok(errors),
            None => Err(CheckError { msg: RESPONSE_FAILURE }),
        },
        None => Err(CheckError { msg: RESPONSE_FAILURE }),
    }
}

/// The plain form of the result of a check.
pub open spec fn check_result_view(result: Result<(), CheckError>) -> Result<(), Seq<char>> {
    match result {
        Ok(_) => Ok(()),
        Err(error) => Err(error.msg@),
    }
}

/// What a check comes to, given whether the process of the checker
/// succeeded and what it printed.
pub fn check_outcome(succeeded: bool, output: &str) -> (result: Result<(), CheckError>)
    ensures
        check_result_view(result) == check_result(succeeded, output@),
{
    if !succeeded {
        return Err(CheckError { msg: COMMAND_FAILED });
    }
    let errors = parse_type_error_response(output)?;
    if errors.len() == 0 {
        Ok(())
    } else {
        Err(CheckError { msg: TYPE_ERRORS_FOUND })
    }
}

impl CheckError {
    /// The failure of a process that could not be started or waited for.
    pub fn io() -> (error: CheckError)
        ensures
            error.msg@ == IO_FAILURE@,
    {
        CheckError { msg: IO_FAILURE }
    }
}

} // verus!
