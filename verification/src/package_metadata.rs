//! The package metadata an account component takes from its `Cargo.toml`:
//! name, version, description and the Miden account types it supports
//! (`[package.metadata.miden] supported-types`).
use toml::Value;
use vstd::prelude::*;

verus! {

/// A semantic version: numbers, pre-release and build metadata.
#[derive(Debug)]
pub struct SemVer {
    pub major: u64,
    pub minor: u64,
    pub patch: u64,
    pub pre: String,
    pub build: String,
}

/// The version `semver::Version::parse` reads from `s`, if it accepts it.
pub uninterp spec fn semver_parse(s: Seq<char>) -> Option<SemVer>;

/// `semver::Version::parse`: the semantic version written in `s`, if `s` is
/// one.
#[verifier::external_body]
pub(crate) fn parse_version(s: &str) -> (r: Option<SemVer>)
    ensures
        r == semver_parse(s@),
{
    semver::Version::parse(s).ok().map(|v| SemVer {
        major: v.major,
        minor: v.minor,
        patch: v.patch,
        pre: v.pre.as_str().to_owned(),
        build: v.build.as_str().to_owned(),
    })
}

/// What a key of the manifest holds, as far as the metadata reads it.
#[derive(Debug)]
pub enum TomlItem {
    /// The key is absent.
    Missing,
    /// A string.
    Str(String),
    /// Any other value.
    Other,
}

/// The `[package]` table of a manifest, as far as the metadata reads it.
#[derive(Debug)]
pub struct PackageTable {
    pub name: TomlItem,
    pub version: TomlItem,
    pub description: TomlItem,
    /// `metadata.miden.supported-types`, when it is an array.
    pub supported_types: Option<Vec<TomlItem>>,
}

/// Metadata of the package.
#[derive(Debug)]
pub struct CargoMetadata {
    pub name: String,
    /// The text of the package's semantic version.
    pub version: String,
    pub description: String,
    /// Custom Miden field: list of supported account types.
    pub supported_types: Vec<String>,
}

/// Why the metadata could not be read from the manifest.
#[derive(Debug)]
pub enum PackageMetadataError {
    /// The manifest is not a TOML document.
    InvalidToml,
    /// The manifest has no `[package]` table.
    NoPackageTable,
    /// The `[package]` table has no string `name`.
    MissingName,
    /// The `[package]` table has no string `version`.
    MissingVersion,
    /// The version is not a semantic version.
    InvalidVersion(String),
}

impl CargoMetadata {
    /// The metadata used when no source file locates the manifest: empty
    /// name and description, version 0.0.1, no supported type.
    pub fn fallback() -> (r: Self)
        ensures
            r.name@.len() == 0,
            r.version@ == "0.0.1"@,
            r.description@.len() == 0,
            r.supported_types@.len() == 0,
    {
        proof {
            reveal_strlit("0.0.1");
        }
        CargoMetadata {
            name: String::new(),
            version: "0.0.1".to_owned(),
            description: String::new(),
            supported_types: Vec::new(),
        }
    }
}

/// The value that the TOML document `content` holds at the key path `path`
/// (each key looked up in the table the previous one gave): as an item, and
/// its elements when it is an array; `None` when `content` is not a TOML
/// document.
pub uninterp spec fn toml_value_at(content: Seq<char>, path: Seq<Seq<char>>) -> Option<(TomlItem, Option<Vec<TomlItem>>)>;

/// `toml::Value`'s `FromStr`, then `Value::get` along the key path `path`:
/// the value found, as a string, another value or missing, and its
/// elements (each a string or another value) when it is an array. What the
/// parse gives is named, not stated.
#[verifier::external_body]
fn toml_lookup(content: &str, path: &Vec<&str>) -> (r: Option<(TomlItem, Option<Vec<TomlItem>>)>)
    ensures
        r == toml_value_at(content@, path@.map_values(|k: &str| k@)),
{
    let item = |v: &Value| match v {
        Value::String(s) => TomlItem::Str(s.clone()),
        _ => TomlItem::Other,
    };
    let doc = content.parse::<Value>().ok()?;
    let found = path.iter().try_fold(&doc, |v, k| v.get(*k));
    Some((found.map_or(TomlItem::Missing, item), found.and_then(Value::as_array).map(|a| a.iter().map(item).collect())))
}

/// The key path of the `[package]` table, and of its keys.
pub open spec fn package_key(key: Seq<char>) -> Seq<Seq<char>> {
    if key.len() == 0 {
        seq!["package"@]
    } else {
        seq!["package"@, key]
    }
}

/// The key path of the supported account types.
pub open spec fn supported_types_path() -> Seq<Seq<char>> {
    seq!["package"@, "metadata"@, "miden"@, "supported-types"@]
}

/// The `[package]` table of the TOML document `content`, as the metadata
/// reads it: its `name`, `version` and `description`, and its
/// `metadata.miden.supported-types` when that is an array; `Some(None)`
/// when the document has no `package` key, and `None` when `content` is
/// not a TOML document.
pub open spec fn manifest_package(content: Seq<char>) -> Option<Option<PackageTable>> {
    match toml_value_at(content, package_key(Seq::empty())) {
        None => None,
        Some((TomlItem::Missing, _)) => Some(None),
        Some(_) => match (
            toml_value_at(content, package_key("name"@)),
            toml_value_at(content, package_key("version"@)),
            toml_value_at(content, package_key("description"@)),
            toml_value_at(content, supported_types_path()),
        ) {
            (Some(n), Some(v), Some(d), Some(st)) => Some(Some(PackageTable {
                name: n.0,
                version: v.0,
                description: d.0,
                supported_types: st.1,
            })),
            _ => None,
        },
    }
}

/// The `[package]` table of a manifest's text (see `manifest_package`).
fn manifest_package_table(content: &str) -> (r: Option<Option<PackageTable>>)
    ensures
        r == manifest_package(content@),
{
    proof {
        reveal_strlit("package");
        reveal_strlit("name");
        reveal_strlit("version");
        reveal_strlit("description");
        reveal_strlit("metadata");
        reveal_strlit("miden");
        reveal_strlit("supported-types");
    }
    let path = vec!["package"];
    assert(path@.map_values(|k: &str| k@) =~= package_key(Seq::empty()));
    match toml_lookup(content, &path) {
        None => return None,
        Some((TomlItem::Missing, _)) => return Some(None),
        Some(_) => {},
    }
    let path = vec!["package", "name"];
    assert(path@.map_values(|k: &str| k@) =~= package_key("name"@));
    let name = toml_lookup(content, &path);
    let path = vec!["package", "version"];
    assert(path@.map_values(|k: &str| k@) =~= package_key("version"@));
    let version = toml_lookup(content, &path);
    let path = vec!["package", "description"];
    assert(path@.map_values(|k: &str| k@) =~= package_key("description"@));
    let description = toml_lookup(content, &path);
    let path = vec!["package", "metadata", "miden", "supported-types"];
    assert(path@.map_values(|k: &str| k@) =~= supported_types_path());
    let supported = toml_lookup(content, &path);
    match (name, version, description, supported) {
        (Some(n), Some(v), Some(d), Some(st)) => Some(Some(PackageTable {
            name: n.0,
            version: v.0,
            description: d.0,
            supported_types: st.1,
        })),
        _ => None,
    }
}

/// The strings of an array, in order; other elements are skipped.
pub open spec fn strings_of(items: Seq<TomlItem>) -> Seq<Seq<char>>
    decreases items.len(),
{
    if items.len() == 0 {
        Seq::empty()
    } else {
        match items.last() {
            TomlItem::Str(s) => strings_of(items.drop_last()).push(s@),
            _ => strings_of(items.drop_last()),
        }
    }
}

/// The version text of the package: its `version` string, or `0.0.0` for the
/// crate whose own manifest leaves the version to the workspace
/// (`is_own_manifest`).
pub open spec fn version_text(p: PackageTable, is_own_manifest: bool) -> Option<Seq<char>> {
    match p.version {
        TomlItem::Str(v) => Some(v@),
        _ => if is_own_manifest { Some("0.0.0"@) } else { None },
    }
}

fn strings_of_items(items: &Vec<TomlItem>) -> (r: Vec<String>)
    ensures
        r@.map_values(|s: String| s@) == strings_of(items@),
{
    let mut r: Vec<String> = Vec::new();
    let mut i: usize = 0;
    while i < items.len()
        invariant
            i <= items@.len(),
            r@.map_values(|s: String| s@) == strings_of(items@.take(i as int)),
        decreases items@.len() - i,
    {
        assert(items@.take(i + 1).drop_last() =~= items@.take(i as int));
        if let TomlItem::Str(s) = &items[i] {
            let ghost prev = r@;
            r.push(s.clone());
            assert(r@.map_values(|s: String| s@) =~= prev.map_values(|s: String| s@).push(s@));
        }
        i = i + 1;
    }
    assert(items@.take(items@.len() as int) =~= items@);
    r
}

/// What reading the package metadata of a `[package]` table gives: the
/// table must hold a string name and a semantic version; the description
/// defaults to empty and the supported types to none.
pub open spec fn metadata_of(package: Option<PackageTable>, is_own_manifest: bool, r: Result<CargoMetadata, PackageMetadataError>) -> bool {
    match package {
        None => r matches Err(PackageMetadataError::NoPackageTable),
        Some(p) => match p.name {
            TomlItem::Str(name) => match version_text(p, is_own_manifest) {
                None => r matches Err(PackageMetadataError::MissingVersion),
                Some(v) => match semver_parse(v) {
                    None => r matches Err(PackageMetadataError::InvalidVersion(t)) && t@ == v,
                    Some(_) => r matches Ok(m) && m.name@ == name@ && m.version@ == v
                        && m.description@ == (match p.description {
                            TomlItem::Str(d) => d@,
                            _ => Seq::<char>::empty(),
                        })
                        && m.supported_types@.map_values(|s: String| s@) == (match p.supported_types {
                            Some(items) => strings_of(items@),
                            None => Seq::<Seq<char>>::empty(),
                        }),
                },
            },
            _ => r matches Err(PackageMetadataError::MissingName),
        },
    }
}

/// The package metadata of a manifest's `[package]` table (see
/// `metadata_of`).
pub fn package_metadata(package: &Option<PackageTable>, is_own_manifest: bool) -> (r: Result<CargoMetadata, PackageMetadataError>)
    ensures
        metadata_of(*package, is_own_manifest, r),
{
    let p = match package {
        None => return Err(PackageMetadataError::NoPackageTable),
        Some(p) => p,
    };
    let name = match &p.name {
        TomlItem::Str(n) => n.clone(),
        _ => return Err(PackageMetadataError::MissingName),
    };
    let version_str: String = match &p.version {
        TomlItem::Str(v) => v.clone(),
        _ => if is_own_manifest {
            proof {
                reveal_strlit("0.0.0");
            }
            "0.0.0".to_owned()
        } else {
            return Err(PackageMetadataError::MissingVersion);
        },
    };
    if parse_version(version_str.as_str()).is_none() {
        return Err(PackageMetadataError::InvalidVersion(version_str));
    }
    let version = version_str;
    let description = match &p.description {
        TomlItem::Str(d) => d.clone(),
        _ => String::new(),
    };
    let supported_types = match &p.supported_types {
        Some(items) => strings_of_items(items),
        None => {
            let v: Vec<String> = Vec::new();
            assert(v@.map_values(|s: String| s@) =~= Seq::<Seq<char>>::empty());
            v
        },
    };
    Ok(CargoMetadata { name, version, description, supported_types })
}


/// The package metadata of a manifest's text: it must be a TOML document,
/// and its `[package]` table is read as `package_metadata` reads it.
pub fn package_metadata_from_manifest(content: &str, is_own_manifest: bool) -> (r: Result<CargoMetadata, PackageMetadataError>)
    ensures
        match manifest_package(content@) {
            None => r matches Err(PackageMetadataError::InvalidToml),
            Some(package) => metadata_of(package, is_own_manifest, r),
        },
{
    match manifest_package_table(content) {
        None => Err(PackageMetadataError::InvalidToml),
        Some(package) => package_metadata(&package, is_own_manifest),
    }
}

} // verus!
