//! The entries of a search path, before and after they are expanded.

use vstd::prelude::*;
use vstd::string::*;
use crate::configuration::error::{result_view, Diagnostic, DiagnosticView};
use crate::filesystem::{
    accepts_every_path, expand_global_root_with, expand_relative_path_with, expansion,
    global_root_expansion, is_global_root_relative, outcome_view, resolve_on_disk, PathError,
};
use crate::paths::is_absolute;
use crate::text::{is_sorted, sort_strings, starts_with};

verus! {

/// What expanding `path` against `relative_root` may come to: a path
/// written relative to the global root is left for later, any other is
/// expanded against `relative_root`.
pub open spec fn relative_root_expansion<F: Fn(&str) -> Option<String>>(
    resolver: &F,
    path: Seq<char>,
    relative_root: Seq<char>,
    outcome: Result<Seq<char>, Seq<char>>,
) -> bool {
    if is_global_root_relative(path) {
        outcome == Ok::<Seq<char>, Seq<char>>(path)
    } else {
        expansion(resolver, relative_root, path, outcome)
    }
}

/// Expands `path` against `relative_root` with the given resolver, unless
/// it is written relative to the global root.
pub fn _expand_relative_root_with<F: Fn(&str) -> Option<String>>(
    path: &str,
    relative_root: &str,
    resolver: &F,
) -> (outcome: Result<String, PathError>)
    requires
        accepts_every_path(resolver),
    ensures
        relative_root_expansion(resolver, path@, relative_root@, outcome_view(outcome)),
{
    proof {
        reveal_strlit("//");
        assert("//"@ =~= crate::filesystem::global_root_marker());
    }
    if !starts_with(path, "//") {
        expand_relative_path_with(relative_root, path, resolver)
    } else {
        Ok(path.to_owned())
    }
}

/// Expands `path` against `relative_root` on disk, unless it is written
/// relative to the global root.
pub fn _expand_relative_root(path: &str, relative_root: &str) -> (outcome: Result<
    String,
    PathError,
>)
    ensures
        is_global_root_relative(path@) ==> outcome_view(outcome) == Ok::<Seq<char>, Seq<char>>(
            path@,
        ),
        !is_global_root_relative(path@) ==> (outcome matches Ok(resolved) ==> is_absolute(
            resolved@,
        )),
{
    let resolver = |target: &str| -> (answer: Option<String>) { resolve_on_disk(target) };
    _expand_relative_root_with(path, relative_root, &resolver)
}

/// An entry of a search path as it is written: absolute, relative, or
/// relative to the global root.
#[derive(Debug, PartialEq, Eq)]
pub struct SimpleRawElement {
    pub root: String,
}

impl DeepView for SimpleRawElement {
    type V = Seq<char>;

    open spec fn deep_view(&self) -> Seq<char> {
        self.root@
    }
}

impl View for SimpleRawElement {
    type V = Seq<char>;

    open spec fn view(&self) -> Seq<char> {
        self.root@
    }
}

/// An entry of a search path once it is expanded.
#[derive(Debug, PartialEq, Eq)]
pub struct SimpleElement {
    pub root: String,
}

impl DeepView for SimpleElement {
    type V = Seq<char>;

    open spec fn deep_view(&self) -> Seq<char> {
        self.root@
    }
}

impl View for SimpleElement {
    type V = Seq<char>;

    open spec fn view(&self) -> Seq<char> {
        self.root@
    }
}

impl SimpleElement {
    /// An expanded entry stands at an absolute path.
    pub open spec fn well_formed(&self) -> bool {
        is_absolute(self@)
    }
}

impl SimpleRawElement {
    /// This entry with its global-root marker expanded by the given
    /// resolver.
    pub fn expand_global_root_with<F: Fn(&str) -> Option<String>>(
        &self,
        global_root: &str,
        resolver: &F,
    ) -> (outcome: Result<SimpleRawElement, PathError>)
        requires
            accepts_every_path(resolver),
        ensures
            global_root_expansion(resolver, self@, global_root@, result_view(outcome)),
    {
        match expand_global_root_with(self.root.as_str(), global_root, resolver) {
            Ok(root) => Ok(SimpleRawElement { root }),
            Err(error) => Err(error),
        }
    }

    /// This entry expanded against `relative_root` by the given resolver,
    /// unless it is written relative to the global root.
    pub fn expand_relative_root_with<F: Fn(&str) -> Option<String>>(
        self,
        relative_root: &str,
        resolver: &F,
    ) -> (outcome: Result<SimpleRawElement, PathError>)
        requires
            accepts_every_path(resolver),
        ensures
            relative_root_expansion(resolver, self@, relative_root@, result_view(outcome)),
    {
        match _expand_relative_root_with(self.root.as_str(), relative_root, resolver) {
            Ok(root) => Ok(SimpleRawElement { root }),
            Err(error) => Err(error),
        }
    }

    /// The expanded entry that stands at the same place. It is well
    /// formed where this entry is absolute, as every expanded entry is.
    pub fn to_element(&self) -> (element: SimpleElement)
        ensures
            element@ == self@,
            element.well_formed() == is_absolute(self@),
    {
        SimpleElement { root: self.root.clone() }
    }
}

/// The entries of a search path that stand at the given paths.
pub fn elements_from(paths: Vec<String>) -> (elements: Vec<SimpleRawElement>)
    ensures
        elements.deep_view() == paths.deep_view(),
{
    let mut paths = paths;
    let ghost all = paths.deep_view();
    let mut elements: Vec<SimpleRawElement> = Vec::new();
    proof {
        assert(all.skip(all.len() as int) =~= Seq::<Seq<char>>::empty());
    }
    while paths.len() > 0
        invariant
            paths.deep_view() == all.take(paths.len() as int),
            paths.len() <= all.len(),
            elements.len() + paths.len() == all.len(),
            forall|j: int|
                0 <= j < elements.len() ==> elements[j]@ == all[all.len() - 1 - j],
        decreases paths.len(),
    {
        let ghost before = paths.deep_view();
        let root = paths.pop().unwrap();
        proof {
            assert(root@ == before[before.len() - 1]);
            assert(paths.deep_view() =~= all.take(paths.len() as int));
        }
        elements.push(SimpleRawElement { root });
    }
    let mut ordered: Vec<SimpleRawElement> = Vec::new();
    while elements.len() > 0
        invariant
            ordered.len() + elements.len() == all.len(),
            forall|j: int|
                0 <= j < elements.len() ==> elements[j]@ == all[all.len() - 1 - j],
            forall|j: int| 0 <= j < ordered.len() ==> ordered[j]@ == all[j],
        decreases elements.len(),
    {
        let element = elements.pop().unwrap();
        ordered.push(element);
    }
    assert(ordered.deep_view() =~= all);
    ordered
}

/// The paths among the matches of a pattern that could be read, in
/// order.
pub open spec fn readable(matches: Seq<Option<Seq<char>>>) -> Seq<Seq<char>>
    decreases matches.len(),
{
    if matches.len() == 0 {
        Seq::empty()
    } else {
        let front = readable(matches.drop_last());
        match matches.last() {
            Some(path) => front.push(path),
            None => front,
        }
    }
}

/// What the matches of a pattern give: the paths that could be read, in
/// the order of dictionaries, and a warning where there is none. A
/// pattern that is not well formed matches nothing.
pub open spec fn glob_expansion(
    pattern: Seq<char>,
    matches: Option<Seq<Option<Seq<char>>>>,
    elements: Seq<Seq<char>>,
    warnings: Seq<DiagnosticView>,
) -> bool {
    let found = match matches {
        Some(paths) => readable(paths),
        None => Seq::empty(),
    };
    &&& is_sorted(elements)
    &&& elements.to_multiset() == found.to_multiset()
    &&& warnings == if found.len() == 0 {
        seq![DiagnosticView::NoMatch { pattern }]
    } else {
        Seq::empty()
    }
}

/// The paths among `matches` that could be read.
fn readable_paths(matches: &Vec<Option<String>>) -> (paths: Vec<String>)
    ensures
        paths.deep_view() == readable(matches.deep_view()),
{
    let ghost all = matches.deep_view();
    let mut paths: Vec<String> = Vec::new();
    let mut i: usize = 0;
    proof {
        assert(all.take(0) =~= Seq::<Option<Seq<char>>>::empty());
        assert(paths.deep_view() =~= Seq::<Seq<char>>::empty());
    }
    while i < matches.len()
        invariant
            i <= matches.len(),
            all == matches.deep_view(),
            paths.deep_view() == readable(all.take(i as int)),
        decreases matches.len() - i,
    {
        let ghost front = paths.deep_view();
        proof {
            assert(all.take(i + 1).drop_last() =~= all.take(i as int));
            assert(all.take(i + 1).last() == matches[i as int].deep_view());
        }
        match &matches[i] {
            Some(path) => {
                paths.push(path.clone());
                proof {
                    assert(paths.deep_view() =~= front.push(path@));
                }
            },
            None => {},
        }
        i += 1;
    }
    proof {
        assert(all.take(matches.len() as int) =~= all);
    }
    paths
}

/// Asks the filesystem for the paths that match `pattern`, by
/// `glob::glob`. There is no answer where the pattern is not well formed;
/// a match that could not be read, or whose path is not valid Unicode, is
/// handed out as nothing. Nothing is claimed of the answer: it depends on
/// what is on disk.
#[verifier::external_body]
fn glob_matches(pattern: &str) -> (matches: Option<Vec<Option<String>>>) {
    match glob::glob(pattern) {
        Ok(paths) => Some(
            paths.map(
                |entry| match entry {
                    Ok(path) => path.into_os_string().into_string().ok(),
                    Err(_) => None,
                },
            ).collect(),
        ),
        Err(_) => None,
    }
}

impl SimpleRawElement {
    /// The entries that the matches of the pattern `pattern` give, with
    /// the warning that goes with them.
    pub fn from_matches(pattern: &str, matches: Option<Vec<Option<String>>>) -> (expanded: (
        Vec<SimpleRawElement>,
        Vec<Diagnostic>,
    ))
        ensures
            glob_expansion(
                pattern@,
                matches.deep_view(),
                expanded.0.deep_view(),
                expanded.1.deep_view(),
            ),
    {
        let found = match &matches {
            Some(paths) => readable_paths(paths),
            None => {
                let nothing: Vec<String> = Vec::new();
                assert(nothing.deep_view() =~= Seq::<Seq<char>>::empty());
                nothing
            },
        };
        let sorted = sort_strings(&found);
        let mut warnings: Vec<Diagnostic> = Vec::new();
        if found.len() == 0 {
            let warning = Diagnostic::NoMatch { pattern: pattern.to_owned() };
            warnings.push(warning);
            assert(warnings.deep_view() =~= seq![warning@]);
        } else {
            assert(warnings.deep_view() =~= Seq::<DiagnosticView>::empty());
        }
        (elements_from(sorted), warnings)
    }
}

/// What an entry of a search path can do before it is expanded.
pub trait RawElement: Sized {
    /// The entry with its global-root marker expanded on disk.
    fn expand_global_root(&self, global_root: &str) -> Result<Self, PathError>;

    /// The entry expanded against `relative_root` on disk.
    fn expand_relative_root(self, relative_root: &str) -> Result<Self, PathError>;

    /// The entries that the entry stands for once its pattern is
    /// expanded against the disk, with the warnings met on the way.
    fn expand_glob(&self) -> (Vec<Self>, Vec<Diagnostic>);
}

/// What an expanded entry of a search path can do.
pub trait Element {
    /// The path of the entry.
    fn path(&self) -> &str;

    /// The entry as it is handed to the checker on its command line.
    fn command_line_argument(&self) -> &str;
}

impl RawElement for SimpleRawElement {
    /// This entry with its global-root marker expanded on disk.
    fn expand_global_root(&self, global_root: &str) -> (outcome: Result<
        SimpleRawElement,
        PathError,
    >)
        ensures
            !is_global_root_relative(self@) ==> result_view(outcome) == Ok::<
                Seq<char>,
                Seq<char>,
            >(self@),
            is_global_root_relative(self@) ==> (outcome matches Ok(element) ==> is_absolute(
                element@,
            )),
    {
        let resolver = |target: &str| -> (answer: Option<String>) { resolve_on_disk(target) };
        self.expand_global_root_with(global_root, &resolver)
    }

    /// This entry expanded against `relative_root` on disk, unless it is
    /// written relative to the global root.
    fn expand_relative_root(self, relative_root: &str) -> (outcome: Result<
        SimpleRawElement,
        PathError,
    >)
        ensures
            is_global_root_relative(self@) ==> result_view(outcome) == Ok::<Seq<char>, Seq<char>>(
                self@,
            ),
            !is_global_root_relative(self@) ==> (outcome matches Ok(element) ==> is_absolute(
                element@,
            )),
    {
        let resolver = |target: &str| -> (answer: Option<String>) { resolve_on_disk(target) };
        self.expand_relative_root_with(relative_root, &resolver)
    }

    /// The entries that this entry stands for once its pattern is
    /// expanded against the disk: the paths that match, in the order of
    /// dictionaries. There is a warning exactly where nothing matches.
    fn expand_glob(&self) -> (expanded: (Vec<SimpleRawElement>, Vec<Diagnostic>))
        ensures
            is_sorted(expanded.0.deep_view()),
            expanded.1.deep_view() == if expanded.0.len() == 0 {
                seq![DiagnosticView::NoMatch { pattern: self@ }]
            } else {
                Seq::<DiagnosticView>::empty()
            },
    {
        let matches = glob_matches(self.root.as_str());
        let ghost found = match matches.deep_view() {
            Some(paths) => readable(paths),
            None => Seq::empty(),
        };
        let expanded = Self::from_matches(self.root.as_str(), matches);
        proof {
            vstd::seq_lib::to_multiset_len(found);
            vstd::seq_lib::to_multiset_len(expanded.0.deep_view());
        }
        expanded
    }
}

impl Element for SimpleElement {
    /// The path of the entry.
    fn path(&self) -> (path: &str)
        ensures
            path@ == self@,
    {
        self.root.as_str()
    }

    /// The entry as it is handed to the checker on its command line.
    fn command_line_argument(&self) -> (argument: &str)
        ensures
            argument@ == self@,
    {
        self.root.as_str()
    }
}

} // verus!
