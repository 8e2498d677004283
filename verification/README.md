# miden_compiler

Verified core logic of the Miden compiler toolchain, written in Verus.

`src/` is the verified library:

- `frame`, `translator`: the index spaces of a Wasm component frame and the
  initializers that fill them, the instantiation of core modules and nested
  components, and the lifting of exported functions.
- `miden_abi`, `symbol`: which Miden ABI procedures need their calls
  transformed, and how each transformation lowers a call.
- `assemble`: the assembly stage and the package manifest it builds.
- `storage`, `lexer`, `storage_attr`: the storage handles of an account
  component and the `#[storage(...)]` attribute language.
- `account_component_metadata`, `package_metadata`, `component_macro`: the
  account component metadata, read from the package manifest and the
  component's fields.
- `dependencies`: the resolution of Miden dependencies of `cargo miden`.
- `text`: small string helpers.

`app/` holds what stays outside verification: reading manifests and the
filesystem, running dependency builds, and turning syn items into the
library's plain values and the library's results into tokens.

`tests/` exercises the library on concrete inputs.
