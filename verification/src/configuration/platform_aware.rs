//! A setting that is either one value for every platform or one value
//! for each platform that is named.

use vstd::prelude::*;
use vstd::string::*;

verus! {

/// A setting given once for all platforms, or platform by platform.
#[derive(Debug, PartialEq, Eq)]
pub enum PlatformAware {
    Single(String),
    PerPlatform(Vec<(String, String)>),
}

/// The plain form of a [`PlatformAware`].
pub enum PlatformAwareView {
    Single(Seq<char>),
    PerPlatform(Seq<(Seq<char>, Seq<char>)>),
}

impl DeepView for PlatformAware {
    type V = PlatformAwareView;

    open spec fn deep_view(&self) -> PlatformAwareView {
        match self {
            PlatformAware::Single(value) => PlatformAwareView::Single(value@),
            PlatformAware::PerPlatform(values) => PlatformAwareView::PerPlatform(
                values.deep_view(),
            ),
        }
    }
}

impl View for PlatformAware {
    type V = PlatformAwareView;

    open spec fn view(&self) -> PlatformAwareView {
        self.deep_view()
    }
}

} // verus!
