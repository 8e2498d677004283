//! Verified core logic of the Miden compiler toolchain: the component-model
//! frame bookkeeping of the Wasm frontend, the Miden ABI call transformation
//! strategy, the assembly stage's package manifest, the account component
//! metadata builder, the `#[storage(...)]` attribute language and the
//! dependency resolution of `cargo miden`.
use vstd::prelude::*;

pub mod storage;
pub mod account_component_metadata;
pub mod assemble;
pub mod component_macro;
pub mod dependencies;
pub mod frame;
pub mod lexer;
pub mod miden_abi;
pub mod package_metadata;
pub mod storage_attr;
pub mod symbol;
pub mod text;
pub mod translator;

verus! {

} // verus!
