use miden_compiler::account_component_metadata::FieldType;
use miden_compiler::component_macro::{component, process_fields, ComponentError, StructField};
use miden_compiler::account_component_metadata::{AccountComponentMetadataBuilder, AccountKind};
use miden_objects::account::{AccountComponentMetadata, AccountType, StorageEntry};
use miden_objects::utils::Deserializable;
use miden_compiler::package_metadata::CargoMetadata;
use miden_compiler::storage::{StorageMap, Value};
use miden_compiler::storage_attr::{AttrError, AttrMeta, Attribute};

fn storage_attr(tokens: &str) -> Attribute {
    Attribute { path: "storage".to_string(), meta: AttrMeta::List(tokens.to_string()) }
}

fn field(name: &str, ty: &str, attrs: Vec<Attribute>) -> StructField {
    StructField { name: name.to_string(), ty: FieldType::Path(Some(ty.to_string())), attrs }
}

/// The fields of the `TestComponent` struct of the component macro's
/// documentation, as the macro sees them.
fn test_component_fields() -> Vec<StructField> {
    vec![
        field(
            "owner_public_key",
            "Value",
            vec![storage_attr(
                "slot (0) , description = \"test value\" , type = \"auth::rpo_falcon512::pub_key\"",
            )],
        ),
        field("foo_map", "StorageMap", vec![storage_attr("slot (1) , description = \"test map\"")]),
        field("without_description", "Value", vec![storage_attr("slot (2)")]),
    ]
}

#[test]
fn test_component_macro_expansion() {
    let mut fields = test_component_fields();
    let metadata = CargoMetadata::fallback();
    let expansion = component(&mut fields, &metadata).unwrap();
    let inits = &expansion.field_inits;
    let owner_public_key = Value { slot: inits[0].slot };
    let foo_map = StorageMap { slot: inits[1].slot };
    let without_description = Value { slot: inits[2].slot };
    assert_eq!(owner_public_key.slot, 0);
    assert_eq!(foo_map.slot, 1);
    assert_eq!(without_description.slot, 2);
    assert!(!expansion.metadata_bytes.is_empty());
}

/// The package metadata of the crate that declares `TestComponent`.
fn test_package() -> CargoMetadata {
    CargoMetadata {
        name: "miden-base-macros".to_string(),
        version: "0.0.7".to_string(),
        description: "Provides proc macro support for Miden rollup SDK".to_string(),
        supported_types: vec![],
    }
}

#[test]
fn the_metadata_carries_the_package_and_the_storage_layout() {
    let mut fields = test_component_fields();
    let expansion = component(&mut fields, &test_package()).unwrap();
    let m = AccountComponentMetadata::read_from_bytes(&expansion.metadata_bytes).unwrap();
    assert_eq!(m.name(), "miden-base-macros");
    assert_eq!(m.description(), "Provides proc macro support for Miden rollup SDK");
    assert_eq!(m.version().to_string(), "0.0.7");
    assert!(m.supported_types().is_empty());
    let entries = m.storage_entries();
    assert_eq!(entries.len(), 3);
    match &entries[0] {
        StorageEntry::Value { slot, word_entry } => {
            assert_eq!(*slot, 0);
            assert_eq!(word_entry.name().unwrap().as_str(), "owner_public_key");
            assert_eq!(word_entry.description(), Some("test value"));
            assert_eq!(word_entry.word_type().as_str(), "auth::rpo_falcon512::pub_key");
        }
        _ => panic!("expected a value entry"),
    }
    match &entries[1] {
        StorageEntry::Map { slot, map } => {
            assert_eq!(*slot, 1);
            assert_eq!(map.name().as_str(), "foo_map");
            assert_eq!(map.description().map(|d| d.as_str()), Some("test map"));
            assert!(map.is_empty());
        }
        _ => panic!("expected a map entry"),
    }
    match &entries[2] {
        StorageEntry::Value { slot, word_entry } => {
            assert_eq!(*slot, 2);
            assert_eq!(word_entry.name().unwrap().as_str(), "without_description");
            assert_eq!(word_entry.description(), None);
            assert_eq!(word_entry.word_type().as_str(), "word");
        }
        _ => panic!("expected a value entry"),
    }
}

#[test]
fn unknown_word_types_and_repeated_names_reject_the_metadata() {
    let mut fields = vec![field("a", "Value", vec![storage_attr("slot(0), type = \"no::such_type\"")])];
    assert!(matches!(component(&mut fields, &test_package()), Err(ComponentError::MetadataRejected)));
    let mut b = AccountComponentMetadataBuilder::new("c".to_string(), "0.1.0".to_string(), String::new());
    b.add_storage_entry("x", None, 0, &FieldType::Path(Some("Value".to_string())), None);
    b.add_storage_entry("x", None, 1, &FieldType::Path(Some("StorageMap".to_string())), None);
    assert!(b.build().is_none());
}

#[test]
fn supported_types_form_a_set_in_the_metadata() {
    let mut fields = test_component_fields();
    let mut package = test_package();
    package.supported_types = vec!["FungibleFaucet".to_string(), "FungibleFaucet".to_string(), "RegularAccountImmutableCode".to_string()];
    let expansion = component(&mut fields, &package).unwrap();
    let m = AccountComponentMetadata::read_from_bytes(&expansion.metadata_bytes).unwrap();
    assert_eq!(m.supported_types().len(), 2);
    assert!(m.supported_types().contains(&AccountType::FungibleFaucet));
}

#[test]
fn a_version_that_is_not_semantic_rejects_the_metadata() {
    let mut fields = test_component_fields();
    let mut package = test_package();
    package.version = "1.0".to_string();
    assert!(matches!(component(&mut fields, &package), Err(ComponentError::MetadataRejected)));
}

#[test]
fn the_builder_keeps_the_type_attribute_and_each_account_type_once() {
    let mut b = AccountComponentMetadataBuilder::new("c".to_string(), "1.2.3-rc.1".to_string(), "d".to_string());
    b.add_supported_type(AccountKind::FungibleFaucet);
    b.add_supported_type(AccountKind::FungibleFaucet);
    b.add_storage_entry("v", None, 0, &FieldType::Path(Some("Value".to_string())), Some("word".to_string()));
    let bytes = b.build().unwrap();
    let m = AccountComponentMetadata::read_from_bytes(&bytes).unwrap();
    assert_eq!(m.version().to_string(), "1.2.3-rc.1");
    assert_eq!(m.supported_types().len(), 1);
    assert_eq!(m.storage_entries()[0].name().unwrap().as_str(), "v");
}

#[test]
fn storage_attributes_are_taken_off_the_fields() {
    let mut fields = test_component_fields();
    fields[0].attrs.push(Attribute { path: "doc".to_string(), meta: AttrMeta::NameValue });
    let mut builder = AccountComponentMetadataBuilder::new("c".to_string(), "0.0.1".to_string(), String::new());
    let inits = process_fields(&mut fields, &mut builder).unwrap();
    assert_eq!(inits.len(), 3);
    assert_eq!(inits[1].name, "foo_map");
    assert_eq!(inits[1].field, 1);
    assert_eq!(fields[0].attrs.len(), 1);
    assert_eq!(fields[0].attrs[0].path, "doc");
    assert!(fields[1].attrs.is_empty());
    assert!(fields[2].attrs.is_empty());
}

#[test]
fn a_field_without_storage_is_refused() {
    let mut fields = test_component_fields();
    fields.push(field("plain", "Value", vec![]));
    let mut builder = AccountComponentMetadataBuilder::new("c".to_string(), "0.0.1".to_string(), String::new());
    assert!(matches!(process_fields(&mut fields, &mut builder), Err(AttrError::MissingStorage)));
}

#[test]
fn a_second_storage_attribute_is_refused() {
    let mut fields = vec![field("x", "Value", vec![storage_attr("slot(0)"), storage_attr("slot(1)")])];
    let mut builder = AccountComponentMetadataBuilder::new("c".to_string(), "0.0.1".to_string(), String::new());
    assert!(matches!(process_fields(&mut fields, &mut builder), Err(AttrError::Duplicate)));
    // both storage attributes are taken off
    assert!(fields[0].attrs.is_empty());
}

#[test]
fn the_first_error_wins() {
    let mut fields = vec![
        field("a", "Value", vec![storage_attr("slot(300)")]),
        field("b", "Value", vec![]),
    ];
    let mut builder = AccountComponentMetadataBuilder::new("c".to_string(), "0.0.1".to_string(), String::new());
    assert!(matches!(process_fields(&mut fields, &mut builder), Err(AttrError::InvalidSlot)));
}

#[test]
fn unknown_supported_types_are_refused() {
    let mut fields = test_component_fields();
    let mut metadata = CargoMetadata::fallback();
    metadata.supported_types = vec!["RegularAccountUpdatableCode".to_string(), "Wallet".to_string()];
    match component(&mut fields, &metadata) {
        Err(ComponentError::InvalidAccountType(t)) => assert_eq!(t, "Wallet"),
        _ => panic!("expected an invalid account type"),
    }
}

#[test]
fn supported_types_are_accepted() {
    let mut fields = test_component_fields();
    let mut metadata = CargoMetadata::fallback();
    metadata.supported_types = vec!["FungibleFaucet".to_string(), "RegularAccountImmutableCode".to_string()];
    assert!(component(&mut fields, &metadata).is_ok());
}

#[test]
fn slots_with_a_gap_are_rejected_by_the_metadata() {
    let mut fields = vec![
        field("a", "Value", vec![storage_attr("slot(0)")]),
        field("b", "StorageMap", vec![storage_attr("slot(2)")]),
    ];
    let metadata = CargoMetadata::fallback();
    assert!(matches!(component(&mut fields, &metadata), Err(ComponentError::MetadataRejected)));
}

#[test]
fn test_component_metadata_serialization() {
    let mut fields = test_component_fields();
    let expansion = component(&mut fields, &test_package()).unwrap();
    let metadata = AccountComponentMetadata::read_from_bytes(&expansion.metadata_bytes)
        .expect("Failed to deserialize AccountComponentMetadata");

    let toml = metadata.as_toml().unwrap();

    let expected = r#"name = "miden-base-macros"
description = "Provides proc macro support for Miden rollup SDK"
version = "0.0.7"
supported-types = []

[[storage]]
name = "owner_public_key"
description = "test value"
slot = 0
type = "auth::rpo_falcon512::pub_key"

[[storage]]
name = "foo_map"
description = "test map"
slot = 1
values = []

[[storage]]
name = "without_description"
slot = 2
type = "word"
"#;
    assert_eq!(toml, expected);
}
