//! The file extensions that are checked beside `.py`.

use vstd::prelude::*;
use vstd::string::*;
use crate::configuration::error::{result_view, ConfigurationError, ExpectedType};
use crate::configuration::fields::{
    invalid_field, mismatch, optional_bool, read_optional_bool, read_required_string,
    required_string, Decoded,
};
use crate::json::{lemma_object_view, JsonValue, JsonView};

verus! {

/// An extension, and whether it is kept in the names of modules.
#[derive(Debug, PartialEq, Eq)]
pub struct ExtensionElement {
    pub suffix: String,
    pub include_suffix_in_module_qualifier: bool,
}

/// The plain form of an [`ExtensionElement`].
pub struct ExtensionElementView {
    pub suffix: Seq<char>,
    pub include_suffix_in_module_qualifier: bool,
}

impl DeepView for ExtensionElement {
    type V = ExtensionElementView;

    open spec fn deep_view(&self) -> ExtensionElementView {
        ExtensionElementView {
            suffix: self.suffix@,
            include_suffix_in_module_qualifier: self.include_suffix_in_module_qualifier,
        }
    }
}

impl View for ExtensionElement {
    type V = ExtensionElementView;

    open spec fn view(&self) -> ExtensionElementView {
        self.deep_view()
    }
}

/// The extension that a value describes: an object with a string
/// `suffix` and, optionally, a boolean that is false when absent.
pub open spec fn extension_of(value: JsonView) -> Decoded<ExtensionElementView> {
    match value {
        JsonView::Object(entries) => {
            let suffix = required_string(entries, "suffix"@);
            let in_qualifier = optional_bool(entries, "include_suffix_in_module_qualifier"@);
            if suffix is Err {
                Err(suffix->Err_0)
            } else if in_qualifier is Err {
                Err(in_qualifier->Err_0)
            } else {
                Ok(
                    ExtensionElementView {
                        suffix: suffix->Ok_0,
                        include_suffix_in_module_qualifier: match in_qualifier->Ok_0 {
                            Some(flag) => flag,
                            None => false,
                        },
                    },
                )
            }
        },
        other => Err(mismatch("extensions"@, ExpectedType::Object, other)),
    }
}

impl ExtensionElement {
    /// Reads an extension from a value.
    pub fn from_json(value: &JsonValue) -> (result: Result<ExtensionElement, ConfigurationError>)
        ensures
            result_view(result) == extension_of(value@),
    {
        match value {
            JsonValue::Object(entries) => {
                proof {
                    lemma_object_view(*entries);
                }
                let suffix = read_required_string(entries, "suffix")?;
                let in_qualifier = read_optional_bool(entries, "include_suffix_in_module_qualifier")?;
                Ok(
                    ExtensionElement {
                        suffix,
                        include_suffix_in_module_qualifier: match in_qualifier {
                            Some(flag) => flag,
                            None => false,
                        },
                    },
                )
            },
            other => Err(invalid_field("extensions", ExpectedType::Object, other)),
        }
    }
}

} // verus!
