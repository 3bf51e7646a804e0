//! The sizes of the memory that the checker's processes share.

use vstd::prelude::*;
use crate::configuration::error::{result_view, ConfigurationError};
use crate::configuration::fields::{optional_integer, read_optional_integer, Decoded, Entries};
use crate::json::{entries_view, JsonValue};

verus! {

/// Three sizes, each set or left open.
#[derive(Clone, Copy, Debug, PartialEq, Eq)]
pub struct SharedMemory {
    pub heap_size: Option<i32>,
    pub dependency_table_power: Option<i32>,
    pub hash_table_power: Option<i32>,
}

impl DeepView for SharedMemory {
    type V = SharedMemory;

    open spec fn deep_view(&self) -> SharedMemory {
        *self
    }
}

/// The sizes with none of them set.
pub open spec fn unset() -> SharedMemory {
    SharedMemory { heap_size: None, dependency_table_power: None, hash_table_power: None }
}

/// The sizes of `base` with those that `overwrite` sets put in their
/// place.
pub open spec fn merged(base: SharedMemory, overwrite: SharedMemory) -> SharedMemory {
    SharedMemory {
        heap_size: if overwrite.heap_size is Some {
            overwrite.heap_size
        } else {
            base.heap_size
        },
        dependency_table_power: if overwrite.dependency_table_power is Some {
            overwrite.dependency_table_power
        } else {
            base.dependency_table_power
        },
        hash_table_power: if overwrite.hash_table_power is Some {
            overwrite.hash_table_power
        } else {
            base.hash_table_power
        },
    }
}

/// The sizes that an object sets: each of the three items is an optional
/// integer.
pub open spec fn shared_memory_of(entries: Entries) -> Decoded<SharedMemory> {
    let heap = optional_integer(entries, "heap_size"@);
    let dependency = optional_integer(entries, "dependency_table_power"@);
    let hash = optional_integer(entries, "hash_table_power"@);
    if heap is Err {
        Err(heap->Err_0)
    } else if dependency is Err {
        Err(dependency->Err_0)
    } else if hash is Err {
        Err(hash->Err_0)
    } else {
        Ok(
            SharedMemory {
                heap_size: heap->Ok_0,
                dependency_table_power: dependency->Ok_0,
                hash_table_power: hash->Ok_0,
            },
        )
    }
}

impl Default for SharedMemory {
    fn default() -> (sizes: SharedMemory)
        ensures
            sizes == unset(),
    {
        SharedMemory { heap_size: None, dependency_table_power: None, hash_table_power: None }
    }
}

impl SharedMemory {
    /// Reads the sizes from the entries of an object.
    pub fn from_entries(entries: &Vec<(String, JsonValue)>) -> (result: Result<
        SharedMemory,
        ConfigurationError,
    >)
        ensures
            result_view(result) == shared_memory_of(entries_view(entries@)),
    {
        let heap_size = read_optional_integer(entries, "heap_size")?;
        let dependency_table_power = read_optional_integer(entries, "dependency_table_power")?;
        let hash_table_power = read_optional_integer(entries, "hash_table_power")?;
        Ok(SharedMemory { heap_size, dependency_table_power, hash_table_power })
    }

    /// These sizes with those that `overwrite` sets put in their place.
    pub fn merge(self, overwrite: SharedMemory) -> (sizes: SharedMemory)
        ensures
            sizes == merged(self, overwrite),
    {
        SharedMemory {
            heap_size: if overwrite.heap_size.is_some() {
                overwrite.heap_size
            } else {
                self.heap_size
            },
            dependency_table_power: if overwrite.dependency_table_power.is_some() {
                overwrite.dependency_table_power
            } else {
                self.dependency_table_power
            },
            hash_table_power: if overwrite.hash_table_power.is_some() {
                overwrite.hash_table_power
            } else {
                self.hash_table_power
            },
        }
    }
}

} // verus!
