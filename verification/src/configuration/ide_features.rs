//! The switches of the features that serve an editor.

use vstd::prelude::*;
use crate::configuration::error::{result_view, ConfigurationError};
use crate::configuration::fields::{optional_bool, read_optional_bool, Decoded, Entries};
use crate::json::{entries_view, JsonValue};

verus! {

/// Whether hovering is on where nothing sets it.
pub const DEFAULT_HOVER_ENABLED: bool = false;

/// Whether going to a definition is on where nothing sets it.
pub const DEFAULT_GO_TO_DEFINITION_ENABLED: bool = false;

/// Whether finding symbols is on where nothing sets it.
pub const DEFAULT_FIND_SYMBOLS_ENABLED: bool = false;

/// Whether finding all references is on where nothing sets it.
pub const DEFAULT_FIND_ALL_REFERENCES_ENABLED: bool = false;

/// Four switches, each set or left open.
#[derive(Clone, Copy, Debug, PartialEq, Eq)]
pub struct IdeFeatures {
    pub hover_enabled: Option<bool>,
    pub go_to_definition_enabled: Option<bool>,
    pub find_symbols_enabled: Option<bool>,
    pub find_all_references_enabled: Option<bool>,
}

impl DeepView for IdeFeatures {
    type V = IdeFeatures;

    open spec fn deep_view(&self) -> IdeFeatures {
        *self
    }
}

/// The switches that an object sets: each of the four items is an
/// optional boolean.
pub open spec fn ide_features_of(entries: Entries) -> Decoded<IdeFeatures> {
    let hover = optional_bool(entries, "hover_enabled"@);
    let definition = optional_bool(entries, "go_to_definition_enabled"@);
    let symbols = optional_bool(entries, "find_symbols_enabled"@);
    let references = optional_bool(entries, "find_all_references_enabled"@);
    if hover is Err {
        Err(hover->Err_0)
    } else if definition is Err {
        Err(definition->Err_0)
    } else if symbols is Err {
        Err(symbols->Err_0)
    } else if references is Err {
        Err(references->Err_0)
    } else {
        Ok(
            IdeFeatures {
                hover_enabled: hover->Ok_0,
                go_to_definition_enabled: definition->Ok_0,
                find_symbols_enabled: symbols->Ok_0,
                find_all_references_enabled: references->Ok_0,
            },
        )
    }
}

impl IdeFeatures {
    /// Reads the switches from the entries of an object.
    pub fn from_entries(entries: &Vec<(String, JsonValue)>) -> (result: Result<
        IdeFeatures,
        ConfigurationError,
    >)
        ensures
            result_view(result) == ide_features_of(entries_view(entries@)),
    {
        let hover_enabled = read_optional_bool(entries, "hover_enabled")?;
        let go_to_definition_enabled = read_optional_bool(entries, "go_to_definition_enabled")?;
        let find_symbols_enabled = read_optional_bool(entries, "find_symbols_enabled")?;
        let find_all_references_enabled = read_optional_bool(
            entries,
            "find_all_references_enabled",
        )?;
        Ok(
            IdeFeatures {
                hover_enabled,
                go_to_definition_enabled,
                find_symbols_enabled,
                find_all_references_enabled,
            },
        )
    }

    /// Whether hovering is on.
    pub fn is_hover_enabled(&self) -> (enabled: bool)
        ensures
            enabled == match self.hover_enabled {
                Some(flag) => flag,
                None => DEFAULT_HOVER_ENABLED,
            },
    {
        match self.hover_enabled {
            Some(flag) => flag,
            None => DEFAULT_HOVER_ENABLED,
        }
    }

    /// Whether going to a definition is on.
    pub fn is_go_to_definition_enabled(&self) -> (enabled: bool)
        ensures
            enabled == match self.go_to_definition_enabled {
                Some(flag) => flag,
                None => DEFAULT_GO_TO_DEFINITION_ENABLED,
            },
    {
        match self.go_to_definition_enabled {
            Some(flag) => flag,
            None => DEFAULT_GO_TO_DEFINITION_ENABLED,
        }
    }

    /// Whether finding symbols is on.
    pub fn is_find_symbols_enabled(&self) -> (enabled: bool)
        ensures
            enabled == match self.find_symbols_enabled {
                Some(flag) => flag,
                None => DEFAULT_FIND_SYMBOLS_ENABLED,
            },
    {
        match self.find_symbols_enabled {
            Some(flag) => flag,
            None => DEFAULT_FIND_SYMBOLS_ENABLED,
        }
    }

    /// Whether finding all references is on.
    pub fn is_find_all_references_enabled(&self) -> (enabled: bool)
        ensures
            enabled == match self.find_all_references_enabled {
                Some(flag) => flag,
                None => DEFAULT_FIND_ALL_REFERENCES_ENABLED,
            },
    {
        match self.find_all_references_enabled {
            Some(flag) => flag,
            None => DEFAULT_FIND_ALL_REFERENCES_ENABLED,
        }
    }
}

} // verus!
