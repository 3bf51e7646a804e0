//! How the packages installed beside the interpreter are searched.

use vstd::prelude::*;
use vstd::string::*;
use crate::text::str_equal;

verus! {

/// The strategy by which installed packages are found.
#[derive(Clone, Copy, Debug, PartialEq, Eq, Structural)]
pub enum SearchStrategy {
    NONE,
    ALL,
    PEP561,
}

impl DeepView for SearchStrategy {
    type V = SearchStrategy;

    open spec fn deep_view(&self) -> SearchStrategy {
        *self
    }
}

/// The strategy that `name` names: `none`, `all` or `pep561`.
pub open spec fn strategy_named(name: Seq<char>) -> Option<SearchStrategy> {
    if name == "none"@ {
        Some(SearchStrategy::NONE)
    } else if name == "all"@ {
        Some(SearchStrategy::ALL)
    } else if name == "pep561"@ {
        Some(SearchStrategy::PEP561)
    } else {
        None
    }
}

impl Default for SearchStrategy {
    fn default() -> (strategy: SearchStrategy)
        ensures
            strategy == SearchStrategy::NONE,
    {
        SearchStrategy::NONE
    }
}

impl SearchStrategy {
    /// The strategy that `name` names, when it names one.
    pub fn from_string(name: &str) -> (strategy: Option<SearchStrategy>)
        ensures
            strategy == strategy_named(name@),
    {
        if str_equal(name, "none") {
            Some(SearchStrategy::NONE)
        } else if str_equal(name, "all") {
            Some(SearchStrategy::ALL)
        } else if str_equal(name, "pep561") {
            Some(SearchStrategy::PEP561)
        } else {
            None
        }
    }

    /// The name of the strategy.
    pub fn name(&self) -> (name: &'static str)
        ensures
            strategy_named(name@) == Some(*self),
    {
        proof {
            reveal_strlit("none");
            reveal_strlit("all");
            reveal_strlit("pep561");
        }
        match self {
            SearchStrategy::NONE => "none",
            SearchStrategy::ALL => {
                assert("all"@.len() != "none"@.len());
                "all"
            },
            SearchStrategy::PEP561 => {
                assert("pep561"@.len() != "none"@.len());
                assert("pep561"@.len() != "all"@.len());
                "pep561"
            },
        }
    }
}

} // verus!
