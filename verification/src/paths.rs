//! Paths as text. A path is a sequence of characters whose components are
//! separated by `/`; nothing here consults the filesystem.

use vstd::prelude::*;
use vstd::string::*;
use crate::text::{skip_chars, starts_with, take_chars};

verus! {

/// The separator between the components of a path.
pub const SEPARATOR: char = '/';

/// A path is absolute when it starts at the root directory.
pub open spec fn is_absolute(path: Seq<char>) -> bool {
    path.len() > 0 && path[0] == SEPARATOR
}

/// `path` without its trailing separators. The root directory, written
/// with any number of separators, trims to a single separator.
pub open spec fn trim(path: Seq<char>) -> Seq<char>
    decreases path.len(),
{
    if path.len() > 1 && path.last() == SEPARATOR {
        trim(path.drop_last())
    } else {
        path
    }
}

/// The length of the part of `path` up to and including its last
/// separator; zero when it holds none.
pub open spec fn directory_length(path: Seq<char>) -> nat
    decreases path.len(),
{
    if path.len() == 0 {
        0
    } else if path.last() == SEPARATOR {
        path.len()
    } else {
        directory_length(path.drop_last())
    }
}

/// Whether `path` names a directory that has a parent: it is neither
/// empty nor the root directory.
pub open spec fn has_parent(path: Seq<char>) -> bool {
    trim(path).len() > 0 && trim(path) != seq![SEPARATOR]
}

/// The directory that holds `path`, when it has one. The parent of a
/// single relative component is the empty path.
pub open spec fn parent(path: Seq<char>) -> Option<Seq<char>> {
    if has_parent(path) {
        let trimmed = trim(path);
        Some(trim(trimmed.take(directory_length(trimmed) as int)))
    } else {
        None
    }
}

/// `name` placed inside `directory`. An absolute `name` stands for
/// itself, as does any `name` inside the empty path.
pub open spec fn join(directory: Seq<char>, name: Seq<char>) -> Seq<char> {
    if is_absolute(name) || directory.len() == 0 {
        name
    } else if directory.last() == SEPARATOR {
        directory + name
    } else {
        directory + seq![SEPARATOR] + name
    }
}

/// Trimming gives a prefix of the path that begins as the path does, is
/// empty only where the path is, ends in no separator unless it is the
/// root directory, and is left as it is by trimming again.
pub proof fn lemma_trim_shape(path: Seq<char>)
    ensures
        trim(path).len() <= path.len(),
        trim(path).is_prefix_of(path),
        trim(path).len() == 0 <==> path.len() == 0,
        trim(path).len() > 1 ==> trim(path).last() != SEPARATOR,
        trim(trim(path)) == trim(path),
        path.len() > 0 ==> trim(path)[0] == path[0],
    decreases path.len(),
{
    if path.len() > 1 && path.last() == SEPARATOR {
        lemma_trim_shape(path.drop_last());
    }
}

/// The directory part of a path ends in a separator where it is not
/// empty, and what follows it holds no separator.
pub proof fn lemma_directory_length_bound(path: Seq<char>)
    ensures
        directory_length(path) <= path.len(),
        path.len() > 0 && path.last() != SEPARATOR ==> directory_length(path) < path.len(),
        directory_length(path) > 0 ==> path[directory_length(path) - 1] == SEPARATOR,
        forall|i: int| directory_length(path) <= i < path.len() ==> path[i] != SEPARATOR,
    decreases path.len(),
{
    if path.len() > 0 && path.last() != SEPARATOR {
        let shorter = path.drop_last();
        lemma_directory_length_bound(shorter);
        assert forall|i: int| directory_length(path) <= i < path.len() implies path[i]
            != SEPARATOR by {
            if i < shorter.len() {
                assert(shorter[i] == path[i]);
            }
        }
    }
}

/// A parent is strictly shorter than the path it was taken from.
pub proof fn lemma_parent_is_shorter(path: Seq<char>)
    requires
        has_parent(path),
    ensures
        parent(path) is Some,
        parent(path)->0.len() < path.len(),
{
    let trimmed = trim(path);
    lemma_trim_shape(path);
    lemma_directory_length_bound(trimmed);
    lemma_trim_shape(trimmed.take(directory_length(trimmed) as int));
    if trimmed.len() == 1 {
        assert(trimmed =~= seq![trimmed[0]]);
    }
}

/// `path` followed by the directories that hold it, nearest first, up to
/// the root directory or, for a relative path, the empty path.
pub open spec fn ancestors(path: Seq<char>) -> Seq<Seq<char>>
    decreases path.len(),
    via ancestors_terminates
{
    if has_parent(path) {
        seq![path] + ancestors(parent(path)->0)
    } else {
        seq![path]
    }
}

/// The chain of ancestors ends: every parent is shorter.
#[via_fn]
proof fn ancestors_terminates(path: Seq<char>) {
    if has_parent(path) {
        lemma_parent_is_shorter(path);
    }
}

/// Whether `path` is absolute.
pub fn path_is_absolute(path: &str) -> (absolute: bool)
    ensures
        absolute == is_absolute(path@),
{
    path.unicode_len() > 0 && path.get_char(0) == SEPARATOR
}

/// The number of characters of `path` that remain once its trailing
/// separators are trimmed.
fn trimmed_length(path: &str) -> (length: usize)
    ensures
        length <= path@.len(),
        trim(path@) == path@.take(length as int),
{
    let mut length = path.unicode_len();
    proof {
        assert(path@.take(length as int) =~= path@);
    }
    while length > 1 && path.get_char(length - 1) == SEPARATOR
        invariant
            length <= path@.len(),
            trim(path@) == trim(path@.take(length as int)),
        decreases length,
    {
        proof {
            assert(path@.take(length as int).drop_last() =~= path@.take(length - 1));
        }
        length -= 1;
    }
    length
}

/// The length of the directory part of the first `length` characters of
/// `path`.
fn directory_length_within(path: &str, length: usize) -> (found: usize)
    requires
        length <= path@.len(),
    ensures
        found == directory_length(path@.take(length as int)),
        found <= length,
{
    let mut found = length;
    while found > 0 && path.get_char(found - 1) != SEPARATOR
        invariant
            found <= length <= path@.len(),
            directory_length(path@.take(length as int)) == directory_length(
                path@.take(found as int),
            ),
        decreases found,
    {
        proof {
            assert(path@.take(found as int).drop_last() =~= path@.take(found - 1));
        }
        found -= 1;
    }
    found
}

/// The directory that holds `path`, when it has one.
pub fn parent_of(path: &str) -> (directory: Option<String>)
    ensures
        directory.deep_view() == parent(path@),
{
    let length = trimmed_length(path);
    if length == 0 || (length == 1 && path.get_char(0) == SEPARATOR) {
        proof {
            if length == 1 {
                assert(path@.take(1) =~= seq![SEPARATOR]);
            }
        }
        return None;
    }
    let trimmed = take_chars(path, length);
    let cut = directory_length_within(path, length);
    let directory = take_chars(path, cut);
    let kept = trimmed_length(directory.as_str());
    proof {
        assert(trimmed@.take(cut as int) =~= path@.take(cut as int));
        if length == 1 {
            assert(trimmed@ != seq![SEPARATOR]) by {
                assert(trimmed@[0] != SEPARATOR);
            }
        } else {
            assert(trimmed@.len() != seq![SEPARATOR].len());
        }
    }
    Some(take_chars(directory.as_str(), kept))
}

/// `path` followed by the directories that hold it, nearest first.
pub fn ancestors_of(path: &str) -> (chain: Vec<String>)
    ensures
        chain.deep_view() == ancestors(path@),
{
    let mut chain: Vec<String> = Vec::new();
    let mut current: String = path.to_owned();
    chain.push(current.clone());
    let mut next = parent_of(current.as_str());
    while next.is_some()
        invariant
            chain.len() > 0,
            chain[chain.len() - 1]@ == current@,
            next.deep_view() == parent(current@),
            ancestors(path@) == chain.deep_view().drop_last() + ancestors(current@),
        decreases current@.len(),
    {
        proof {
            lemma_parent_is_shorter(current@);
        }
        let ghost before = chain.deep_view();
        let ghost held = current@;
        current = next.unwrap();
        chain.push(current.clone());
        next = parent_of(current.as_str());
        proof {
            assert(chain.deep_view().drop_last() =~= before);
            assert(before =~= before.drop_last() + seq![held]);
            assert(ancestors(held) == seq![held] + ancestors(current@));
            assert(ancestors(path@) =~= chain.deep_view().drop_last() + ancestors(current@));
        }
    }
    proof {
        assert(ancestors(current@) == seq![current@]);
        assert(chain.deep_view() =~= chain.deep_view().drop_last() + seq![current@]);
    }
    chain
}

/// `name` placed inside `directory`.
pub fn join_paths(directory: &str, name: &str) -> (joined: String)
    ensures
        joined@ == join(directory@, name@),
{
    let length = directory.unicode_len();
    if path_is_absolute(name) || length == 0 {
        return name.to_owned();
    }
    let mut joined = directory.to_owned();
    if directory.get_char(length - 1) != SEPARATOR {
        joined.append("/");
        proof {
            reveal_strlit("/");
            assert("/"@ =~= seq![SEPARATOR]);
        }
    }
    joined.append(name);
    joined
}

/// `path` without its leading separators.
pub open spec fn strip_leading_separators(path: Seq<char>) -> Seq<char>
    decreases path.len(),
{
    if path.len() > 0 && path[0] == SEPARATOR {
        strip_leading_separators(path.skip(1))
    } else {
        path
    }
}

/// `path` as seen from the directory `base`, when `path` lies at or below
/// it: the components of `path` that follow those of `base`. A path seen
/// from itself is empty. Only whole components count, so `/a/bc` does not
/// lie below `/a/b`.
pub open spec fn relative_to(path: Seq<char>, base: Seq<char>) -> Option<Seq<char>> {
    let from = trim(base);
    if from.len() == 0 {
        if is_absolute(path) {
            None
        } else {
            Some(path)
        }
    } else if !from.is_prefix_of(path) {
        None
    } else if path.len() == from.len() {
        Some(Seq::empty())
    } else if from.last() == SEPARATOR || path[from.len() as int] == SEPARATOR {
        Some(strip_leading_separators(path.skip(from.len() as int)))
    } else {
        None
    }
}

/// `path` without its leading separators.
fn without_leading_separators(path: &str) -> (rest: String)
    ensures
        rest@ == strip_leading_separators(path@),
{
    let length = path.unicode_len();
    let mut start: usize = 0;
    proof {
        assert(path@.skip(0) =~= path@);
    }
    while start < length && path.get_char(start) == SEPARATOR
        invariant
            start <= length == path@.len(),
            strip_leading_separators(path@) == strip_leading_separators(path@.skip(start as int)),
        decreases length - start,
    {
        proof {
            assert(path@.skip(start as int).skip(1) =~= path@.skip(start + 1));
        }
        start += 1;
    }
    skip_chars(path, start)
}

/// `path` as seen from the directory `base`, when it lies at or below it.
pub fn relative_path(path: &str, base: &str) -> (relative: Option<String>)
    ensures
        relative.deep_view() == relative_to(path@, base@),
{
    let kept = trimmed_length(base);
    let from = take_chars(base, kept);
    if kept == 0 {
        if path_is_absolute(path) {
            return None;
        }
        return Some(path.to_owned());
    }
    if !starts_with(path, from.as_str()) {
        return None;
    }
    let length = path.unicode_len();
    if length == kept {
        let nothing = String::new();
        assert(nothing@ =~= Seq::<char>::empty());
        return Some(nothing);
    }
    if from.as_str().get_char(kept - 1) == SEPARATOR || path.get_char(kept) == SEPARATOR {
        let rest = skip_chars(path, kept);
        return Some(without_leading_separators(rest.as_str()));
    }
    None
}

/// The ancestors of an ancestor are the tail of the chain that begins
/// with it.
pub proof fn lemma_ancestors_of_ancestor(path: Seq<char>, i: int)
    requires
        0 <= i < ancestors(path).len(),
    ensures
        ancestors(ancestors(path)[i]) == ancestors(path).skip(i),
    decreases i,
{
    if i == 0 {
        assert(ancestors(path).skip(0) =~= ancestors(path));
    } else {
        let above = parent(path)->0;
        lemma_ancestors_of_ancestor(above, i - 1);
        assert(ancestors(path).skip(i) =~= ancestors(above).skip(i - 1));
    }
}

/// Every proper ancestor of a path is shorter than the path.
pub proof fn lemma_proper_ancestor_is_shorter(path: Seq<char>, i: int)
    requires
        1 <= i < ancestors(path).len(),
    ensures
        ancestors(path)[i].len() < path.len(),
    decreases i,
{
    let above = parent(path)->0;
    lemma_parent_is_shorter(path);
    if i > 1 {
        lemma_proper_ancestor_is_shorter(above, i - 1);
    }
}

/// Along a chain of ancestors the paths grow strictly shorter, so no
/// path occurs in it twice.
pub proof fn lemma_ancestors_grow_shorter(path: Seq<char>, i: int, j: int)
    requires
        0 <= i < j < ancestors(path).len(),
    ensures
        ancestors(path)[j].len() < ancestors(path)[i].len(),
{
    lemma_ancestors_of_ancestor(path, i);
    lemma_proper_ancestor_is_shorter(ancestors(path)[i], j - i);
}

/// What trimming takes away is separators only.
pub proof fn lemma_trim_takes_separators(path: Seq<char>)
    ensures
        forall|i: int| trim(path).len() <= i < path.len() ==> path[i] == SEPARATOR,
    decreases path.len(),
{
    if path.len() > 1 && path.last() == SEPARATOR {
        let shorter = path.drop_last();
        lemma_trim_takes_separators(shorter);
        assert forall|i: int| trim(path).len() <= i < path.len() implies path[i] == SEPARATOR by {
            if i < shorter.len() {
                assert(shorter[i] == path[i]);
            }
        }
    }
}

/// Whether `above` is a directory on the way to `path`: it is trimmed, it
/// is a proper prefix of `path` that ends where a component of `path`
/// ends, and it is empty only where `path` is relative.
pub open spec fn is_directory_prefix(above: Seq<char>, path: Seq<char>) -> bool {
    &&& trim(above) == above
    &&& above.is_prefix_of(path)
    &&& above.len() < path.len()
    &&& above.len() == 0 ==> !is_absolute(path)
    &&& above.len() > 0 ==> above.last() == SEPARATOR || path[above.len() as int] == SEPARATOR
}

/// The parent of a path is a directory on the way to it.
pub proof fn lemma_parent_is_directory_prefix(path: Seq<char>)
    requires
        has_parent(path),
    ensures
        is_directory_prefix(parent(path)->0, path),
{
    let trimmed = trim(path);
    let cut = directory_length(trimmed);
    let directory = trimmed.take(cut as int);
    let above = trim(directory);
    lemma_trim_shape(path);
    lemma_directory_length_bound(trimmed);
    lemma_trim_shape(directory);
    lemma_trim_takes_separators(directory);
    lemma_parent_is_shorter(path);
    assert(above.is_prefix_of(path)) by {
        assert(above =~= path.subrange(0, above.len() as int));
    }
    if above.len() > 0 {
        if above.len() < cut {
            assert(directory[above.len() as int] == SEPARATOR);
            assert(directory[above.len() as int] == path[above.len() as int]);
        } else {
            assert(above =~= directory);
            assert(directory.last() == trimmed[cut - 1]);
        }
    } else {
        if is_absolute(path) {
            assert(trimmed[0] == SEPARATOR);
            assert(cut > 0);
        }
    }
}

/// Every proper ancestor of a path is a directory on the way to it.
pub proof fn lemma_ancestor_is_directory_prefix(path: Seq<char>, i: int)
    requires
        1 <= i < ancestors(path).len(),
    ensures
        is_directory_prefix(ancestors(path)[i], path),
    decreases i,
{
    let first = parent(path)->0;
    lemma_parent_is_directory_prefix(path);
    if i > 1 {
        lemma_ancestor_is_directory_prefix(first, i - 1);
        let above = ancestors(path)[i];
        assert(above == ancestors(first)[i - 1]);
        assert(above.is_prefix_of(path)) by {
            assert(above =~= path.subrange(0, above.len() as int));
        }
        if above.len() > 0 {
            assert(first[above.len() as int] == path[above.len() as int]);
        } else {
            assert(first[0] == path[0]);
        }
    }
}

/// A path can always be seen from a directory it lies strictly below.
pub proof fn lemma_descendant_is_relative(path: Seq<char>, i: int)
    requires
        1 <= i < ancestors(path).len(),
    ensures
        relative_to(path, ancestors(path)[i]) is Some,
{
    lemma_ancestor_is_directory_prefix(path, i);
}

} // verus!
