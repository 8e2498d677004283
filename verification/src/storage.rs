//! Account storage handles: a value slot and a map slot, each identified by
//! its slot index in the account storage.
use vstd::prelude::*;

verus! {

/// A single-word value stored in an account storage slot.
pub struct Value {
    pub slot: u8,
}

/// A key-value map stored in an account storage slot.
pub struct StorageMap {
    pub slot: u8,
}

} // verus!
