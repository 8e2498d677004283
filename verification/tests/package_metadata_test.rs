use miden_compiler::package_metadata::{package_metadata, package_metadata_from_manifest, CargoMetadata, PackageMetadataError, PackageTable, TomlItem};

fn s(x: &str) -> TomlItem {
    TomlItem::Str(x.to_string())
}

#[test]
fn metadata_of_a_full_package_table() {
    let p = Some(PackageTable {
        name: s("miden-base-macros"),
        version: s("0.0.7"),
        description: s("Provides proc macro support for Miden rollup SDK"),
        supported_types: Some(vec![s("RegularAccountUpdatableCode"), TomlItem::Other, s("FungibleFaucet")]),
    });
    let m = package_metadata(&p, false).unwrap();
    assert_eq!(m.name, "miden-base-macros");
    assert_eq!(m.version, "0.0.7");
    assert_eq!(m.description, "Provides proc macro support for Miden rollup SDK");
    assert_eq!(m.supported_types, vec!["RegularAccountUpdatableCode".to_string(), "FungibleFaucet".to_string()]);
}

#[test]
fn defaults_and_errors() {
    let table = |name: TomlItem, version: TomlItem| {
        Some(PackageTable { name, version, description: TomlItem::Missing, supported_types: None })
    };
    assert!(matches!(package_metadata(&None, false), Err(PackageMetadataError::NoPackageTable)));
    assert!(matches!(package_metadata(&table(TomlItem::Missing, s("1.0.0")), false), Err(PackageMetadataError::MissingName)));
    assert!(matches!(package_metadata(&table(TomlItem::Other, s("1.0.0")), false), Err(PackageMetadataError::MissingName)));
    assert!(matches!(package_metadata(&table(s("a"), TomlItem::Missing), false), Err(PackageMetadataError::MissingVersion)));
    match package_metadata(&table(s("a"), s("1.0")), false) {
        Err(PackageMetadataError::InvalidVersion(v)) => assert_eq!(v, "1.0"),
        other => panic!("unexpected {:?}", other),
    }
    let m = package_metadata(&table(s("a"), TomlItem::Other), true).unwrap();
    assert_eq!(m.version, "0.0.0");
    assert_eq!(m.description, "");
    assert!(m.supported_types.is_empty());
    let m = package_metadata(&table(s("a"), s("1.2.3-rc.1+build.5")), false).unwrap();
    assert_eq!(m.version, "1.2.3-rc.1+build.5");
}

#[test]
fn fallback_metadata() {
    let m = CargoMetadata::fallback();
    assert_eq!(m.name, "");
    assert_eq!(m.version, "0.0.1");
}

#[test]
fn metadata_of_a_manifest_text() {
    let manifest = r#"
[package]
name = "miden-base-macros"
version = "0.0.7"
description = "Provides proc macro support for Miden rollup SDK"

[package.metadata.miden]
supported-types = ["FungibleFaucet", 3, "RegularAccountUpdatableCode"]
"#;
    let m = package_metadata_from_manifest(manifest, false).unwrap();
    assert_eq!(m.name, "miden-base-macros");
    assert_eq!(m.version, "0.0.7");
    assert_eq!(m.description, "Provides proc macro support for Miden rollup SDK");
    assert_eq!(m.supported_types, vec!["FungibleFaucet".to_string(), "RegularAccountUpdatableCode".to_string()]);
}

#[test]
fn manifest_text_errors() {
    assert!(matches!(package_metadata_from_manifest("[package", false), Err(PackageMetadataError::InvalidToml)));
    assert!(matches!(package_metadata_from_manifest("[dependencies]\n", false), Err(PackageMetadataError::NoPackageTable)));
    assert!(matches!(package_metadata_from_manifest("[package]\nname = 1\n", false), Err(PackageMetadataError::MissingName)));
    assert!(matches!(
        package_metadata_from_manifest("[package]\nname = \"a\"\nversion.workspace = true\n", false),
        Err(PackageMetadataError::MissingVersion)
    ));
    assert!(matches!(package_metadata_from_manifest("package = 5\n", false), Err(PackageMetadataError::MissingName)));
    let m = package_metadata_from_manifest(
        "[package]\nname = \"a\"\nversion = \"1.0.0\"\ndescription = 3\n[package.metadata]\nmiden = 1\n",
        false,
    ).unwrap();
    assert_eq!(m.description, "");
    assert!(m.supported_types.is_empty());
    let m = package_metadata_from_manifest("[package]\nname = \"a\"\nversion.workspace = true\n", true).unwrap();
    assert_eq!(m.version, "0.0.0");
}
