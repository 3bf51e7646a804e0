//! Expansion of the paths a configuration names into absolute paths.
//!
//! What a path resolves to is a matter of the filesystem. The functions
//! whose names end in `_with` take the resolver as an argument and say
//! exactly what they hand it and what they make of its answer; the others
//! resolve against the disk.

use vstd::prelude::*;
use vstd::string::*;
use crate::paths::{is_absolute, join, join_paths, path_is_absolute};
use crate::text::{skip_chars, starts_with};

verus! {

/// A path that could not be resolved to an absolute path.
#[derive(Debug)]
pub struct PathError {
    pub path: String,
}

impl DeepView for PathError {
    type V = Seq<char>;

    open spec fn deep_view(&self) -> Seq<char> {
        self.path@
    }
}

impl View for PathError {
    type V = Seq<char>;

    open spec fn view(&self) -> Seq<char> {
        self.path@
    }
}

/// The marker that makes a path relative to the global root.
pub open spec fn global_root_marker() -> Seq<char> {
    seq!['/', '/']
}

/// Whether `path` is written relative to the global root.
pub open spec fn is_global_root_relative(path: Seq<char>) -> bool {
    global_root_marker().is_prefix_of(path)
}

/// The path that expanding `path` against `root` asks to have resolved:
/// `path` itself when it is absolute, otherwise `path` inside `root`.
pub open spec fn expansion_target(root: Seq<char>, path: Seq<char>) -> Seq<char> {
    join(root, path)
}

/// A resolver can be asked about every path.
pub open spec fn accepts_every_path<F: Fn(&str) -> Option<String>>(resolver: &F) -> bool {
    forall|path: &str| resolver.requires((path,))
}

/// `answer` is something the resolver may say when asked about `target`.
pub open spec fn resolves<F: Fn(&str) -> Option<String>>(
    resolver: &F,
    target: Seq<char>,
    answer: Option<Seq<char>>,
) -> bool {
    exists|asked: &str, said: Option<String>|
        asked@ == target && #[trigger] resolver.ensures((asked,), said) && said.deep_view()
            == answer
}

/// What expanding `path` against `root` may come to: an absolute answer of
/// the resolver to the expansion target, or a failure that names the target
/// when the resolver has no answer or one that is not absolute.
pub open spec fn expansion<F: Fn(&str) -> Option<String>>(
    resolver: &F,
    root: Seq<char>,
    path: Seq<char>,
    outcome: Result<Seq<char>, Seq<char>>,
) -> bool {
    let target = expansion_target(root, path);
    match outcome {
        Ok(resolved) => resolves(resolver, target, Some(resolved)) && is_absolute(resolved),
        Err(unresolved) => unresolved == target && (resolves(resolver, target, None) || exists|
            answer: Seq<char>,
        | #[trigger]
            resolves(resolver, target, Some(answer)) && !is_absolute(answer)),
    }
}

/// What expanding the global-root marker of `path` may come to: a path
/// without the marker is left as it is, and what follows the marker is
/// expanded against `global_root`.
pub open spec fn global_root_expansion<F: Fn(&str) -> Option<String>>(
    resolver: &F,
    path: Seq<char>,
    global_root: Seq<char>,
    outcome: Result<Seq<char>, Seq<char>>,
) -> bool {
    if is_global_root_relative(path) {
        expansion(resolver, global_root, path.skip(2), outcome)
    } else {
        outcome == Ok::<Seq<char>, Seq<char>>(path)
    }
}

/// The plain form of the result of an expansion.
pub open spec fn outcome_view(outcome: Result<String, PathError>) -> Result<Seq<char>, Seq<char>> {
    match outcome {
        Ok(path) => Ok(path@),
        Err(error) => Err(error@),
    }
}

/// The path that expanding `path` against `root` asks to have resolved.
pub fn expansion_target_of(root: &str, path: &str) -> (target: String)
    ensures
        target@ == expansion_target(root@, path@),
{
    join_paths(root, path)
}

/// Expands `path` against `root` with the given resolver.
pub fn expand_relative_path_with<F: Fn(&str) -> Option<String>>(
    root: &str,
    path: &str,
    resolver: &F,
) -> (outcome: Result<String, PathError>)
    requires
        accepts_every_path(resolver),
    ensures
        expansion(resolver, root@, path@, outcome_view(outcome)),
{
    let target = expansion_target_of(root, path);
    let answer = resolver(target.as_str());
    match answer {
        Some(resolved) => {
            if path_is_absolute(resolved.as_str()) {
                assert(resolves(resolver, target@, Some(resolved@)));
                Ok(resolved)
            } else {
                assert(resolves(resolver, target@, Some(resolved@)));
                Err(PathError { path: target })
            }
        },
        None => {
            assert(resolves(resolver, target@, None));
            Err(PathError { path: target })
        },
    }
}

/// Expands the global-root marker of `path` with the given resolver.
pub fn expand_global_root_with<F: Fn(&str) -> Option<String>>(
    path: &str,
    global_root: &str,
    resolver: &F,
) -> (outcome: Result<String, PathError>)
    requires
        accepts_every_path(resolver),
    ensures
        global_root_expansion(resolver, path@, global_root@, outcome_view(outcome)),
{
    proof {
        reveal_strlit("//");
        assert("//"@ =~= global_root_marker());
    }
    if starts_with(path, "//") {
        let rest = skip_chars(path, 2);
        expand_relative_path_with(global_root, rest.as_str(), resolver)
    } else {
        Ok(path.to_owned())
    }
}

/// Asks the filesystem for the canonical form of `path` by calling
/// `std::path::Path::canonicalize`. There is no answer when the call fails
/// or when the canonical path is not valid Unicode. Nothing is claimed of
/// an answer: it depends on what is on disk.
#[verifier::external_body]
pub(crate) fn resolve_on_disk(path: &str) -> (answer: Option<String>) {
    match std::path::Path::new(path).canonicalize() {
        Ok(resolved) => resolved.into_os_string().into_string().ok(),
        Err(_) => None,
    }
}

/// Expands `path` against `root` on disk: an absolute `path` is
/// canonicalized as it is, a relative one inside `root`.
pub fn expand_relative_path(root: &str, path: &str) -> (outcome: Result<String, PathError>)
    ensures
        match outcome {
            Ok(resolved) => is_absolute(resolved@),
            Err(error) => error@ == expansion_target(root@, path@),
        },
{
    let resolver = |target: &str| -> (answer: Option<String>) { resolve_on_disk(target) };
    expand_relative_path_with(root, path, &resolver)
}

/// Expands the global-root marker of `path` on disk: a path that begins
/// with `//` is resolved inside `global_root`, any other is returned as
/// it is.
pub fn expand_global_root(path: &str, global_root: &str) -> (outcome: Result<String, PathError>)
    ensures
        !is_global_root_relative(path@) ==> outcome_view(outcome) == Ok::<Seq<char>, Seq<char>>(
            path@,
        ),
        is_global_root_relative(path@) ==> match outcome {
            Ok(resolved) => is_absolute(resolved@),
            Err(error) => error@ == expansion_target(global_root@, path@.skip(2)),
        },
{
    let resolver = |target: &str| -> (answer: Option<String>) { resolve_on_disk(target) };
    expand_global_root_with(path, global_root, &resolver)
}

/// An absolute path is its own expansion target, whatever the root.
pub proof fn lemma_absolute_path_ignores_root(root: Seq<char>, path: Seq<char>)
    requires
        is_absolute(path),
    ensures
        expansion_target(root, path) == path,
{
}

/// An absolute path expands to what the resolver says of the path itself,
/// and so to the same against every root.
pub proof fn lemma_absolute_path_expands_alike<F: Fn(&str) -> Option<String>>(
    resolver: &F,
    root: Seq<char>,
    other_root: Seq<char>,
    path: Seq<char>,
    outcome: Result<Seq<char>, Seq<char>>,
)
    requires
        is_absolute(path),
    ensures
        expansion(resolver, root, path, outcome) == expansion(resolver, other_root, path, outcome),
        expansion(resolver, root, path, outcome) ==> match outcome {
            Ok(resolved) => resolves(resolver, path, Some(resolved)),
            Err(unresolved) => unresolved == path,
        },
{
}

/// A resolver answers its own answers with themselves: asked about a
/// path it has given as an answer, it gives that path again and nothing
/// else. A canonicalizer does so for as long as the disk does not change.
pub open spec fn answers_itself<F: Fn(&str) -> Option<String>>(resolver: &F) -> bool {
    forall|target: Seq<char>, answer: Seq<char>, repeated: Option<Seq<char>>|
        #![trigger resolves(resolver, target, Some(answer)), resolves(resolver, answer, repeated)]
        resolves(resolver, target, Some(answer)) && resolves(resolver, answer, repeated)
            ==> repeated == Some(answer)
}

/// Expansion is idempotent for a resolver that answers its own answers
/// with themselves: once `path` has expanded to `resolved`, which is
/// absolute, expanding `resolved` against any root gives `resolved` again.
pub proof fn lemma_expansion_is_idempotent<F: Fn(&str) -> Option<String>>(
    resolver: &F,
    root: Seq<char>,
    path: Seq<char>,
    resolved: Seq<char>,
    other_root: Seq<char>,
    again: Result<Seq<char>, Seq<char>>,
)
    requires
        answers_itself(resolver),
        expansion(resolver, root, path, Ok(resolved)),
        expansion(resolver, other_root, resolved, again),
    ensures
        is_absolute(resolved),
        again == Ok::<Seq<char>, Seq<char>>(resolved),
{
    assert(expansion_target(other_root, resolved) == resolved);
    match again {
        Ok(second) => {
            assert(resolves(resolver, resolved, Some(second)));
        },
        Err(unresolved) => {
            if resolves(resolver, resolved, None) {
            } else {
                let answer = choose|answer: Seq<char>| #[trigger]
                    resolves(resolver, resolved, Some(answer)) && !is_absolute(answer);
                assert(resolves(resolver, resolved, Some(answer)));
            }
        },
    }
}

} // verus!
