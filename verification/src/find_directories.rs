//! Discovery of the directories that hold the global and the local
//! configuration file, walking upwards from a base directory.

use vstd::prelude::*;
use vstd::string::*;
use crate::paths::{
    ancestors, ancestors_of, join, join_paths, lemma_ancestors_grow_shorter,
    lemma_ancestors_of_ancestor, lemma_descendant_is_relative, relative_path, relative_to,
};
use crate::text::str_equal;

verus! {

/// The name of the global configuration file.
pub const CONFIGURATION_FILE: &'static str = ".pyre_configuration";

/// The name of the local configuration file.
pub const LOCAL_CONFIGURATION_FILE: &'static str = ".pyre_configuration.local";

/// The name of the directory that holds the tool's private state.
pub const LOG_DIRECTORY: &'static str = ".pyre";

/// The roots that discovery found.
#[derive(Debug)]
pub struct FoundRoot {
    pub global_root: String,
    pub local_root: Option<String>,
}

/// The plain form of a [`FoundRoot`].
pub struct FoundRootView {
    pub global_root: Seq<char>,
    pub local_root: Option<Seq<char>>,
}

impl View for FoundRoot {
    type V = FoundRootView;

    open spec fn view(&self) -> FoundRootView {
        FoundRootView { global_root: self.global_root@, local_root: self.local_root.deep_view() }
    }
}

/// `path` lies strictly below `directory`: `directory` is one of the
/// proper ancestors of `path`.
pub open spec fn is_strict_descendant(path: Seq<char>, directory: Seq<char>) -> bool {
    exists|i: int| 1 <= i < ancestors(path).len() && #[trigger] ancestors(path)[i] == directory
}

impl FoundRootView {
    /// A local root, when there is one, lies strictly below the global
    /// root.
    pub open spec fn well_formed(self) -> bool {
        self.local_root matches Some(local) ==> is_strict_descendant(local, self.global_root)
    }
}

/// `answer` is something the predicate may say of `path`.
pub open spec fn holds_of<F: Fn(&str) -> bool>(predicate: &F, path: Seq<char>, answer: bool) -> bool {
    exists|asked: &str| asked@ == path && #[trigger] predicate.ensures((asked,), answer)
}

/// The number of directories of a chain of `length` ancestors that a
/// search examines: all of them without a bound or with a negative one,
/// otherwise the base and at most `stop_search_after` of its parents.
pub open spec fn search_limit(length: nat, stop_search_after: Option<i32>) -> nat {
    match stop_search_after {
        Some(bound) if 0 <= bound < length => (bound + 1) as nat,
        _ => length,
    }
}

/// What a search upwards from `base` for a directory whose entry `target`
/// satisfies the predicate may come to: the nearest examined directory for
/// which the predicate held, every nearer one having been refused; or
/// nothing, every examined directory having been refused.
pub open spec fn nearest_containing<F: Fn(&str) -> bool>(
    predicate: &F,
    base: Seq<char>,
    target: Seq<char>,
    stop_search_after: Option<i32>,
    found: Option<Seq<char>>,
) -> bool {
    let chain = ancestors(base);
    let limit = search_limit(chain.len(), stop_search_after);
    match found {
        Some(directory) => exists|i: int|
            0 <= i < limit && #[trigger] chain[i] == directory && holds_of(
                predicate,
                join(chain[i], target),
                true,
            ) && forall|j: int|
                0 <= j < i ==> holds_of(predicate, join(#[trigger] chain[j], target), false),
        None => forall|j: int|
            0 <= j < limit ==> holds_of(predicate, join(#[trigger] chain[j], target), false),
    }
}

/// Walks upwards from `base` and returns the nearest directory whose
/// entry `target` satisfies `predicate`. With a bound, the walk gives up
/// after the base and that many of its parents.
pub fn _find_parent_directory_containing<F: Fn(&str) -> bool>(
    base: &str,
    target: &str,
    predicate: &F,
    stop_search_after: Option<i32>,
) -> (found: Option<String>)
    requires
        forall|path: &str| predicate.requires((path,)),
    ensures
        nearest_containing(predicate, base@, target@, stop_search_after, found.deep_view()),
{
    let chain = ancestors_of(base);
    let ghost limit = search_limit(chain.len() as nat, stop_search_after);
    let mut i: usize = 0;
    while i < chain.len()
        invariant
            i <= chain.len(),
            i < chain.len() ==> i < limit,
            chain.deep_view() == ancestors(base@),
            limit == search_limit(chain.len() as nat, stop_search_after),
            forall|path: &str| predicate.requires((path,)),
            forall|j: int|
                0 <= j < i ==> holds_of(
                    predicate,
                    join(#[trigger] ancestors(base@)[j], target@),
                    false,
                ),
        decreases chain.len() - i,
    {
        let ghost directory = ancestors(base@)[i as int];
        assert(chain[i as int]@ == chain.deep_view()[i as int]);
        let candidate = join_paths(chain[i].as_str(), target);
        if predicate(candidate.as_str()) {
            assert(holds_of(predicate, join(directory, target@), true));
            let found = chain[i].clone();
            return Some(found);
        }
        assert(holds_of(predicate, join(directory, target@), false));
        match stop_search_after {
            Some(bound) => {
                if bound >= 0 && i >= bound as usize {
                    return None;
                }
            },
            None => {},
        }
        i += 1;
    }
    None
}

/// Whether a regular file stands at `path`, by `std::path::Path::is_file`.
/// An entry that cannot be read counts as absent. Nothing is claimed of the
/// answer: it depends on what is on disk.
#[verifier::external_body]
pub(crate) fn is_regular_file(path: &str) -> (present: bool) {
    std::path::Path::new(path).is_file()
}

/// `answer` is something the disk may say when it is asked whether a
/// regular file stands at `path`. This is what a call of the probe of the
/// disk may return, and nothing more: the disk may change, so that it may
/// say one thing of a path now and another later.
pub closed spec fn disk_says(path: Seq<char>, answer: bool) -> bool {
    holds_of(&is_regular_file, path, answer)
}

/// What a search on disk upwards from `base` for a directory that holds a
/// regular file named `target` may come to: the nearest examined directory
/// of whose entry `target` the disk said that it is a regular file, having
/// said of the entry of every nearer one that it is none; or nothing, the
/// disk having said so of the entry of every examined directory.
pub open spec fn nearest_on_disk(
    base: Seq<char>,
    target: Seq<char>,
    stop_search_after: Option<i32>,
    found: Option<Seq<char>>,
) -> bool {
    let chain = ancestors(base);
    let limit = search_limit(chain.len(), stop_search_after);
    match found {
        Some(directory) => exists|i: int|
            0 <= i < limit && #[trigger] chain[i] == directory && disk_says(
                join(chain[i], target),
                true,
            ) && forall|j: int| 0 <= j < i ==> disk_says(join(#[trigger] chain[j], target), false),
        None => forall|j: int|
            0 <= j < limit ==> disk_says(join(#[trigger] chain[j], target), false),
    }
}

/// A search that asks the disk comes to what a search on disk may come to.
proof fn lemma_nearest_on_disk(
    base: Seq<char>,
    target: Seq<char>,
    stop_search_after: Option<i32>,
    found: Option<Seq<char>>,
)
    requires
        nearest_containing(&is_regular_file, base, target, stop_search_after, found),
    ensures
        nearest_on_disk(base, target, stop_search_after, found),
{
    let chain = ancestors(base);
    let limit = search_limit(chain.len(), stop_search_after);
    match found {
        Some(directory) => {
            let i = choose|i: int|
                0 <= i < limit && #[trigger] chain[i] == directory && holds_of(
                    &is_regular_file,
                    join(chain[i], target),
                    true,
                ) && forall|j: int|
                    0 <= j < i ==> holds_of(
                        &is_regular_file,
                        join(#[trigger] chain[j], target),
                        false,
                    );
            assert(disk_says(join(chain[i], target), true));
            assert forall|j: int| 0 <= j < i implies disk_says(
                join(#[trigger] chain[j], target),
                false,
            ) by {
                assert(holds_of(&is_regular_file, join(chain[j], target), false));
            }
        },
        None => {
            assert forall|j: int| 0 <= j < limit implies disk_says(
                join(#[trigger] chain[j], target),
                false,
            ) by {
                assert(holds_of(&is_regular_file, join(chain[j], target), false));
            }
        },
    }
}

/// Walks upwards from `base` on disk and returns the nearest directory
/// that holds a regular file named `target`: the first directory, from
/// `base` upwards and within the bound, of whose entry `target` the disk
/// says that it is a regular file. There is no result where the disk says
/// of every examined directory that it holds none.
pub fn find_parent_directory_containing_file(
    base: &str,
    target: &str,
    stop_search_after: Option<i32>,
) -> (found: Option<String>)
    ensures
        nearest_on_disk(base@, target@, stop_search_after, found.deep_view()),
        found matches Some(directory) ==> exists|i: int|
            0 <= i < search_limit(ancestors(base@).len(), stop_search_after)
                && #[trigger] ancestors(base@)[i] == directory@,
{
    let found = _find_parent_directory_containing(
        base,
        target,
        &is_regular_file,
        stop_search_after,
    );
    proof {
        lemma_nearest_on_disk(base@, target@, stop_search_after, found.deep_view());
    }
    found
}

/// The roots to report for a global root and the local root found beside
/// it: the local root is kept only when it lies strictly below the global
/// root.
pub open spec fn reconcile(global_root: Seq<char>, local_root: Option<Seq<char>>) -> FoundRootView {
    FoundRootView {
        global_root,
        local_root: match local_root {
            Some(local) if is_strict_descendant(local, global_root) => Some(local),
            _ => None,
        },
    }
}

/// Whether `path` lies strictly below `directory`.
pub fn lies_strictly_below(path: &str, directory: &str) -> (below: bool)
    ensures
        below == is_strict_descendant(path@, directory@),
{
    let chain = ancestors_of(path);
    let mut i: usize = 1;
    while i < chain.len()
        invariant
            1 <= i,
            chain.deep_view() == ancestors(path@),
            forall|j: int| 1 <= j < i && j < chain.len() ==> ancestors(path@)[j] != directory@,
        decreases chain.len() - i,
    {
        assert(chain[i as int]@ == chain.deep_view()[i as int]);
        if str_equal(chain[i].as_str(), directory) {
            return true;
        }
        i += 1;
    }
    false
}

impl FoundRoot {
    /// The roots to report for a global root and the local root found
    /// beside it.
    pub fn new(global_root: String, local_root: Option<String>) -> (roots: FoundRoot)
        ensures
            roots@ == reconcile(global_root@, local_root.deep_view()),
            roots@.well_formed(),
    {
        let kept = match local_root {
            Some(local) => {
                if lies_strictly_below(local.as_str(), global_root.as_str()) {
                    Some(local)
                } else {
                    None
                }
            },
            None => None,
        };
        FoundRoot { global_root, local_root: kept }
    }
}

/// What discovery from `base` may come to, for a predicate that tells
/// where files are: nothing when no directory holds a global
/// configuration; otherwise the nearest directory that holds one, and
/// with it the nearest directory that holds a local configuration,
/// provided it lies strictly below.
pub open spec fn discovery<F: Fn(&str) -> bool>(
    predicate: &F,
    base: Seq<char>,
    found: Option<FoundRootView>,
) -> bool {
    match found {
        None => nearest_containing(predicate, base, CONFIGURATION_FILE@, None, None),
        Some(roots) => nearest_containing(
            predicate,
            base,
            CONFIGURATION_FILE@,
            None,
            Some(roots.global_root),
        ) && exists|local: Option<Seq<char>>| #[trigger]
            nearest_containing(predicate, base, LOCAL_CONFIGURATION_FILE@, None, local) && roots
                == reconcile(roots.global_root, local),
    }
}

/// The plain form of the result of a discovery.
pub open spec fn found_view(found: Option<FoundRoot>) -> Option<FoundRootView> {
    match found {
        Some(roots) => Some(roots@),
        None => None,
    }
}

/// Finds the global and the local root upwards from `base`, asking
/// `predicate` where files are.
pub fn find_global_and_local_root_with<F: Fn(&str) -> bool>(base: &str, predicate: &F) -> (found:
    Option<FoundRoot>)
    requires
        forall|path: &str| predicate.requires((path,)),
    ensures
        discovery(predicate, base@, found_view(found)),
        found matches Some(roots) ==> roots@.well_formed(),
{
    let global = _find_parent_directory_containing(base, CONFIGURATION_FILE, predicate, None);
    match global {
        None => None,
        Some(global_root) => {
            let local = _find_parent_directory_containing(
                base,
                LOCAL_CONFIGURATION_FILE,
                predicate,
                None,
            );
            let ghost seen = local.deep_view();
            let roots = FoundRoot::new(global_root, local);
            assert(nearest_containing(predicate, base@, LOCAL_CONFIGURATION_FILE@, None, seen));
            Some(roots)
        },
    }
}

/// What discovery on disk from `base` may come to: nothing, the disk
/// having said of every directory from `base` upwards that it holds no
/// global configuration file; otherwise the nearest directory that holds
/// one, and with it the nearest directory that holds a local
/// configuration file, provided it lies strictly below.
pub open spec fn discovery_on_disk(base: Seq<char>, found: Option<FoundRootView>) -> bool {
    match found {
        None => nearest_on_disk(base, CONFIGURATION_FILE@, None, None),
        Some(roots) => nearest_on_disk(base, CONFIGURATION_FILE@, None, Some(roots.global_root))
            && exists|local: Option<Seq<char>>| #[trigger]
            nearest_on_disk(base, LOCAL_CONFIGURATION_FILE@, None, local) && roots == reconcile(
                roots.global_root,
                local,
            ),
    }
}

/// Finds the global and the local root upwards from `base` on disk.
/// There is no result when the disk says of every directory from `base`
/// upwards that it holds no global configuration file. Otherwise the
/// global root is the nearest directory that holds one, and the local
/// root is the nearest directory that holds a local configuration file,
/// reported only when it lies strictly below the global root.
pub fn find_global_and_local_root(base: &str) -> (found: Option<FoundRoot>)
    ensures
        discovery_on_disk(base@, found_view(found)),
        found matches Some(roots) ==> {
            &&& roots@.well_formed()
            &&& ancestors(base@).contains(roots.global_root@)
            &&& roots.local_root matches Some(local) ==> ancestors(base@).contains(local@)
        },
{
    let found = find_global_and_local_root_with(base, &is_regular_file);
    proof {
        if found is Some {
            let roots = found->0;
            let local = choose|local: Option<Seq<char>>| #[trigger]
                nearest_containing(
                    &is_regular_file,
                    base@,
                    LOCAL_CONFIGURATION_FILE@,
                    None,
                    local,
                ) && roots@ == reconcile(roots.global_root@, local);
            lemma_nearest_on_disk(base@, CONFIGURATION_FILE@, None, Some(roots.global_root@));
            lemma_nearest_on_disk(base@, LOCAL_CONFIGURATION_FILE@, None, local);
        } else {
            lemma_nearest_on_disk(base@, CONFIGURATION_FILE@, None, None);
        }
    }
    found
}

/// The local root as seen from the global root; nothing when there is no
/// local root or when it does not lie at or below the global root.
pub fn get_relative_local_root(global_root: &str, local_root: &Option<String>) -> (relative:
    Option<String>)
    ensures
        relative.deep_view() == match local_root {
            Some(local) => relative_to(local@, global_root@),
            None => None,
        },
{
    match local_root {
        Some(local) => relative_path(local.as_str(), global_root),
        None => None,
    }
}

/// Of two directories on one chain of ancestors, the first lies strictly
/// below the second exactly when it is not among the ancestors of the
/// second. So a local root found beside a global root is dropped exactly
/// when the global root is the same directory or a deeper one.
pub proof fn lemma_roots_on_one_chain(base: Seq<char>, local: Seq<char>, global: Seq<char>)
    requires
        ancestors(base).contains(local),
        ancestors(base).contains(global),
    ensures
        is_strict_descendant(local, global) <==> !ancestors(global).contains(local),
{
    let chain = ancestors(base);
    let i = choose|i: int| 0 <= i < chain.len() && chain[i] == local;
    let j = choose|j: int| 0 <= j < chain.len() && chain[j] == global;
    lemma_ancestors_of_ancestor(base, i);
    lemma_ancestors_of_ancestor(base, j);
    if i < j {
        assert(ancestors(local)[j - i] == global);
        assert forall|k: int| 0 <= k < ancestors(global).len() implies ancestors(global)[k]
            != local by {
            assert(ancestors(global)[k] == chain[j + k]);
            if j + k != i {
                if i < j + k {
                    lemma_ancestors_grow_shorter(base, i, j + k);
                }
            }
        }
    } else {
        assert(ancestors(global)[i - j] == local);
        assert forall|k: int| 1 <= k < ancestors(local).len() implies ancestors(local)[k]
            != global by {
            assert(ancestors(local)[k] == chain[i + k]);
            lemma_ancestors_grow_shorter(base, j, i + k);
        }
    }
}

/// The local root of well-formed roots can always be seen from their
/// global root: its relative form exists.
pub proof fn lemma_local_root_is_relative(roots: FoundRootView)
    requires
        roots.well_formed(),
        roots.local_root is Some,
    ensures
        relative_to(roots.local_root->0, roots.global_root) is Some,
{
    let local = roots.local_root->0;
    let i = choose|i: int|
        1 <= i < ancestors(local).len() && #[trigger] ancestors(local)[i] == roots.global_root;
    lemma_descendant_is_relative(local, i);
}

} // verus!
