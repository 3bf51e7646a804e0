//! A dependency that the file watcher does not cover and that is
//! followed through a file of checksums instead.

use vstd::prelude::*;
use vstd::string::*;
use crate::configuration::error::{
    result_view, ConfigurationError, ConfigurationErrorView, ExpectedType,
};
use crate::configuration::fields::{
    invalid_field, mismatch, read_required_string, required_string, Decoded,
    Entries,
};
use crate::json::{entries_view, lemma_object_view, lookup, JsonValue, JsonView};
use crate::paths::{is_absolute, path_is_absolute};
use crate::text::{split, split_on, str_equal};

verus! {

/// The files of an unwatched dependency: the directory that holds them
/// and, relative to it, the file of their checksums.
#[derive(Debug, PartialEq, Eq)]
pub struct UnwatchedFiles {
    pub root: String,
    pub checksum_path: String,
}

/// The plain form of [`UnwatchedFiles`].
pub struct UnwatchedFilesView {
    pub root: Seq<char>,
    pub checksum_path: Seq<char>,
}

impl DeepView for UnwatchedFiles {
    type V = UnwatchedFilesView;

    open spec fn deep_view(&self) -> UnwatchedFilesView {
        UnwatchedFilesView { root: self.root@, checksum_path: self.checksum_path@ }
    }
}

impl View for UnwatchedFiles {
    type V = UnwatchedFilesView;

    open spec fn view(&self) -> UnwatchedFilesView {
        self.deep_view()
    }
}

/// An unwatched dependency: what tells that it changed, and its files.
#[derive(Debug, PartialEq, Eq)]
pub struct UnwatchedDependency {
    pub change_indicator: String,
    pub files: UnwatchedFiles,
}

/// The plain form of an [`UnwatchedDependency`].
pub struct UnwatchedDependencyView {
    pub change_indicator: Seq<char>,
    pub files: UnwatchedFilesView,
}

impl DeepView for UnwatchedDependency {
    type V = UnwatchedDependencyView;

    open spec fn deep_view(&self) -> UnwatchedDependencyView {
        UnwatchedDependencyView {
            change_indicator: self.change_indicator@,
            files: self.files.deep_view(),
        }
    }
}

impl View for UnwatchedDependency {
    type V = UnwatchedDependencyView;

    open spec fn view(&self) -> UnwatchedDependencyView {
        self.deep_view()
    }
}

/// A path stays under the directory it is taken from when it is relative
/// and none of its components steps to a parent.
pub open spec fn stays_below(path: Seq<char>) -> bool {
    !is_absolute(path) && !split(path, '/').contains(".."@)
}

impl UnwatchedFilesView {
    /// The file of checksums lies under the root.
    pub open spec fn well_formed(self) -> bool {
        stays_below(self.checksum_path)
    }
}

impl UnwatchedDependencyView {
    /// The files are well formed.
    pub open spec fn well_formed(self) -> bool {
        self.files.well_formed()
    }
}

/// The files that an object describes: a string `root` and a string
/// `checksum_path` that stays below it.
pub open spec fn unwatched_files_of(entries: Entries) -> Decoded<UnwatchedFilesView> {
    let root = required_string(entries, "root"@);
    let checksum_path = required_string(entries, "checksum_path"@);
    if root is Err {
        Err(root->Err_0)
    } else if checksum_path is Err {
        Err(checksum_path->Err_0)
    } else if !stays_below(checksum_path->Ok_0) {
        Err(
            mismatch(
                "checksum_path"@,
                ExpectedType::RelativePath,
                JsonView::String(checksum_path->Ok_0),
            ),
        )
    } else {
        Ok(UnwatchedFilesView { root: root->Ok_0, checksum_path: checksum_path->Ok_0 })
    }
}

/// The object that the item `files` must be.
pub open spec fn files_object(entries: Entries) -> Decoded<Entries> {
    match lookup(entries, "files"@) {
        Some(JsonView::Object(inner)) => Ok(inner),
        Some(other) => Err(mismatch("files"@, ExpectedType::Object, other)),
        None => Err(mismatch("files"@, ExpectedType::Object, JsonView::Null)),
    }
}

/// The dependency that an object describes: a string `change_indicator`
/// and an object `files`.
pub open spec fn unwatched_dependency_of(entries: Entries) -> Decoded<UnwatchedDependencyView> {
    let change_indicator = required_string(entries, "change_indicator"@);
    let inner = files_object(entries);
    if change_indicator is Err {
        Err(change_indicator->Err_0)
    } else if inner is Err {
        Err(inner->Err_0)
    } else {
        match unwatched_files_of(inner->Ok_0) {
            Ok(files) => Ok(
                UnwatchedDependencyView { change_indicator: change_indicator->Ok_0, files },
            ),
            Err(error) => Err(error),
        }
    }
}

/// Whether `path` stays below the directory it is taken from.
pub fn path_stays_below(path: &str) -> (stays: bool)
    ensures
        stays == stays_below(path@),
{
    if path_is_absolute(path) {
        return false;
    }
    let parts = split_on(path, '/');
    let mut i: usize = 0;
    while i < parts.len()
        invariant
            i <= parts.len(),
            parts.deep_view() == split(path@, '/'),
            forall|j: int| 0 <= j < i ==> split(path@, '/')[j] != ".."@,
        decreases parts.len() - i,
    {
        assert(parts[i as int]@ == parts.deep_view()[i as int]);
        if str_equal(parts[i].as_str(), "..") {
            return false;
        }
        i += 1;
    }
    true
}

impl UnwatchedFiles {
    /// Reads the files from the entries of an object.
    pub fn from_entries(entries: &Vec<(String, JsonValue)>) -> (result: Result<
        UnwatchedFiles,
        ConfigurationError,
    >)
        ensures
            result_view(result) == unwatched_files_of(entries_view(entries@)),
            result matches Ok(files) ==> files@.well_formed(),
    {
        let root = read_required_string(entries, "root")?;
        let checksum_path = read_required_string(entries, "checksum_path")?;
        if !path_stays_below(checksum_path.as_str()) {
            let actual = JsonValue::String(checksum_path);
            return Err(invalid_field("checksum_path", ExpectedType::RelativePath, &actual));
        }
        Ok(UnwatchedFiles { root, checksum_path })
    }
}

impl UnwatchedDependency {
    /// Reads the dependency from the entries of an object.
    pub fn from_entries(entries: &Vec<(String, JsonValue)>) -> (result: Result<
        UnwatchedDependency,
        ConfigurationError,
    >)
        ensures
            result_view(result) == unwatched_dependency_of(entries_view(entries@)),
            result matches Ok(dependency) ==> dependency@.well_formed(),
    {
        let change_indicator = read_required_string(entries, "change_indicator")?;
        let inner = match crate::json::find_entry(entries, "files") {
            Some(JsonValue::Object(inner)) => {
                proof {
                    lemma_object_view(*inner);
                }
                inner
            },
            Some(other) => {
                return Err(invalid_field("files", ExpectedType::Object, other));
            },
            None => {
                return Err(invalid_field("files", ExpectedType::Object, &JsonValue::Null));
            },
        };
        let files = UnwatchedFiles::from_entries(inner)?;
        Ok(UnwatchedDependency { change_indicator, files })
    }
}

/// The files that a value describes: it must be an object.
pub open spec fn unwatched_files_from(value: JsonView) -> Decoded<UnwatchedFilesView> {
    match value {
        JsonView::Object(entries) => unwatched_files_of(entries),
        other => Err(mismatch("files"@, ExpectedType::Object, other)),
    }
}

/// The dependency that a value describes: it must be an object.
pub open spec fn unwatched_dependency_from(value: JsonView) -> Decoded<UnwatchedDependencyView> {
    match value {
        JsonView::Object(entries) => unwatched_dependency_of(entries),
        other => Err(mismatch("unwatched_dependency"@, ExpectedType::Object, other)),
    }
}

/// The object that describes the files.
pub open spec fn unwatched_files_document(files: UnwatchedFilesView) -> JsonView {
    JsonView::Object(
        seq![
            ("root"@, JsonView::String(files.root)),
            ("checksum_path"@, JsonView::String(files.checksum_path)),
        ],
    )
}

/// The object that describes the dependency.
pub open spec fn unwatched_dependency_document(dependency: UnwatchedDependencyView) -> JsonView {
    JsonView::Object(
        seq![
            ("change_indicator"@, JsonView::String(dependency.change_indicator)),
            ("files"@, unwatched_files_document(dependency.files)),
        ],
    )
}

impl UnwatchedFiles {
    /// Reads the files from a value.
    pub fn from_json(value: &JsonValue) -> (result: Result<UnwatchedFiles, ConfigurationError>)
        ensures
            result_view(result) == unwatched_files_from(value@),
            result matches Ok(files) ==> files@.well_formed(),
    {
        match value {
            JsonValue::Object(entries) => {
                proof {
                    lemma_object_view(*entries);
                }
                Self::from_entries(entries)
            },
            other => Err(invalid_field("files", ExpectedType::Object, other)),
        }
    }

    /// The object that describes the files.
    pub fn to_json(&self) -> (document: JsonValue)
        ensures
            document@ == unwatched_files_document(self@),
    {
        let mut entries: Vec<(String, JsonValue)> = Vec::new();
        entries.push(("root".to_owned(), JsonValue::String(self.root.clone())));
        entries.push(("checksum_path".to_owned(), JsonValue::String(self.checksum_path.clone())));
        proof {
            lemma_object_view(entries);
            assert(entries_view(entries@) =~= unwatched_files_document(self@)->Object_0);
        }
        JsonValue::Object(entries)
    }
}

impl UnwatchedDependency {
    /// Reads the dependency from a value.
    pub fn from_json(value: &JsonValue) -> (result: Result<
        UnwatchedDependency,
        ConfigurationError,
    >)
        ensures
            result_view(result) == unwatched_dependency_from(value@),
            result matches Ok(dependency) ==> dependency@.well_formed(),
    {
        match value {
            JsonValue::Object(entries) => {
                proof {
                    lemma_object_view(*entries);
                }
                Self::from_entries(entries)
            },
            other => Err(invalid_field("unwatched_dependency", ExpectedType::Object, other)),
        }
    }

    /// The object that describes the dependency.
    pub fn to_json(&self) -> (document: JsonValue)
        ensures
            document@ == unwatched_dependency_document(self@),
    {
        let mut entries: Vec<(String, JsonValue)> = Vec::new();
        entries.push(
            ("change_indicator".to_owned(), JsonValue::String(self.change_indicator.clone())),
        );
        entries.push(("files".to_owned(), self.files.to_json()));
        proof {
            lemma_object_view(entries);
            assert(entries_view(entries@) =~= unwatched_dependency_document(self@)->Object_0);
        }
        JsonValue::Object(entries)
    }
}

/// The object that describes a well-formed dependency is read back as
/// that dependency.
pub proof fn lemma_unwatched_dependency_is_read_back(dependency: UnwatchedDependencyView)
    requires
        dependency.well_formed(),
    ensures
        unwatched_dependency_from(unwatched_dependency_document(dependency)) == Ok::<
            UnwatchedDependencyView,
            ConfigurationErrorView,
        >(dependency),
{
    reveal_with_fuel(lookup, 3);
    reveal_strlit("root");
    reveal_strlit("checksum_path");
    reveal_strlit("change_indicator");
    reveal_strlit("files");
    let outer = unwatched_dependency_document(dependency)->Object_0;
    let inner = unwatched_files_document(dependency.files)->Object_0;
    assert("change_indicator"@.len() != "files"@.len());
    assert("root"@.len() != "checksum_path"@.len());
    assert(lookup(outer, "change_indicator"@) == Some(
        JsonView::String(dependency.change_indicator),
    ));
    assert(outer.skip(1)[0] == outer[1]);
    assert(lookup(outer, "files"@) == Some(unwatched_files_document(dependency.files)));
    assert(lookup(inner, "root"@) == Some(JsonView::String(dependency.files.root)));
    assert(inner.skip(1)[0] == inner[1]);
    assert(lookup(inner, "checksum_path"@) == Some(
        JsonView::String(dependency.files.checksum_path),
    ));
}

} // verus!
