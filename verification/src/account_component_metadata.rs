//! The builder of an account component's metadata: its name, description,
//! version, supported account types and storage layout.
use miden_objects::account::{
    AccountComponentMetadata, AccountType, MapRepresentation, StorageEntry, StorageValueName,
    TemplateType, WordRepresentation,
};
use miden_objects::utils::{Deserializable, Serializable};
use semver::Version;
use vstd::prelude::*;
use vstd::seq_lib::*;
use crate::package_metadata::semver_parse;

verus! {

/// The account types an account component can support.
#[derive(Clone, Copy, Debug, PartialEq, Eq, Structural)]
pub enum AccountKind {
    FungibleFaucet,
    NonFungibleFaucet,
    RegularAccountImmutableCode,
    RegularAccountUpdatableCode,
}

/// The account type a name stands for.
pub open spec fn spec_account_kind(s: Seq<char>) -> Option<AccountKind> {
    if s == "FungibleFaucet"@ {
        Some(AccountKind::FungibleFaucet)
    } else if s == "NonFungibleFaucet"@ {
        Some(AccountKind::NonFungibleFaucet)
    } else if s == "RegularAccountImmutableCode"@ {
        Some(AccountKind::RegularAccountImmutableCode)
    } else if s == "RegularAccountUpdatableCode"@ {
        Some(AccountKind::RegularAccountUpdatableCode)
    } else {
        None
    }
}

/// The account type with that exact name, or none (as
/// `AccountType::from_str` of miden-objects reads it).
pub(crate) fn account_type_from_str(s: &str) -> (r: Option<AccountKind>)
    ensures
        r == spec_account_kind(s@),
{
    proof {
        reveal_strlit("FungibleFaucet");
        reveal_strlit("NonFungibleFaucet");
        reveal_strlit("RegularAccountImmutableCode");
        reveal_strlit("RegularAccountUpdatableCode");
    }
    if crate::text::str_eq(s, "FungibleFaucet") {
        Some(AccountKind::FungibleFaucet)
    } else if crate::text::str_eq(s, "NonFungibleFaucet") {
        Some(AccountKind::NonFungibleFaucet)
    } else if crate::text::str_eq(s, "RegularAccountImmutableCode") {
        Some(AccountKind::RegularAccountImmutableCode)
    } else if crate::text::str_eq(s, "RegularAccountUpdatableCode") {
        Some(AccountKind::RegularAccountUpdatableCode)
    } else {
        None
    }
}

/// The kind of a storage entry.
#[derive(Clone, Copy, Debug, PartialEq, Eq, Structural)]
pub enum StorageKind {
    /// A single word, given when the component is instantiated.
    Value,
    /// A map, with no initial entries.
    StorageMap,
}

/// One entry of the storage layout.
#[derive(Debug)]
pub struct StorageEntryDesc {
    pub kind: StorageKind,
    pub name: String,
    pub description: Option<String>,
    pub slot: u8,
    /// The type of a value entry's word: the field's type attribute, or
    /// `word`.
    pub word_type: String,
}

/// A storage entry as plain values: kind, name, description, slot, type.
pub type EntryView = (StorageKind, Seq<char>, Option<Seq<char>>, u8, Seq<char>);

pub open spec fn opt_string_view(o: Option<String>) -> Option<Seq<char>> {
    match o {
        Some(s) => Some(s@),
        None => None,
    }
}

impl View for StorageEntryDesc {
    type V = EntryView;

    open spec fn view(&self) -> EntryView {
        (self.kind, self.name@, opt_string_view(self.description), self.slot, self.word_type@)
    }
}

/// The entries of a layout as plain values.
pub open spec fn entry_views(v: Seq<StorageEntryDesc>) -> Seq<EntryView> {
    v.map_values(|e: StorageEntryDesc| e@)
}

/// The type of a value entry with the type attribute `t`: `t`, or `word`.
pub open spec fn entry_type(t: Option<Seq<char>>) -> Seq<char> {
    match t {
        Some(t) => t,
        None => "word"@,
    }
}

/// Whether `c` may appear in a segment of a storage value name.
pub open spec fn value_name_char(c: char) -> bool {
    ('a' <= c <= 'z') || ('A' <= c <= 'Z') || ('0' <= c <= '9') || c == '_' || c == '-'
}

/// A storage value name: one or more non-empty segments separated by `.`,
/// each made of ASCII letters, digits, `_` and `-`.
pub open spec fn valid_value_name(k: Seq<char>) -> bool {
    &&& k.len() > 0
    &&& k[0] != '.'
    &&& k.last() != '.'
    &&& forall|i: int| 0 <= i < k.len() ==> value_name_char(#[trigger] k[i]) || k[i] == '.'
    &&& forall|i: int| 0 <= i < k.len() - 1 ==> !(#[trigger] k[i] == '.' && k[i + 1] == '.')
}

/// The word types miden-objects knows: `word` and
/// `auth::rpo_falcon512::pub_key`.
pub open spec fn registered_word_type(t: Seq<char>) -> bool {
    t == "word"@ || t == "auth::rpo_falcon512::pub_key"@
}

/// Every entry of a layout can be made: its name is a storage value name,
/// and a value entry's type is a known word type.
pub open spec fn entries_made(entries: Seq<EntryView>) -> bool {
    &&& forall|i: int| 0 <= i < entries.len() ==> valid_value_name((#[trigger] entries[i]).1)
    &&& forall|i: int| 0 <= i < entries.len() && (#[trigger] entries[i]).0 == StorageKind::Value
        ==> registered_word_type(entries[i].4)
}

/// A storage layout miden-objects accepts: its entries can be made, no two
/// share a slot or a name, and every slot is below the number of entries,
/// so that the slots are 0, 1, ... in some order.
pub open spec fn layout_accepted(entries: Seq<EntryView>) -> bool {
    &&& entries_made(entries)
    &&& forall|i: int| 0 <= i < entries.len() ==> (#[trigger] entries[i]).3 < entries.len()
    &&& forall|i: int, j: int| 0 <= i < j < entries.len() ==> (#[trigger] entries[i]).3 != (#[trigger] entries[j]).3
    &&& forall|i: int, j: int| 0 <= i < j < entries.len() ==> (#[trigger] entries[i]).1 != (#[trigger] entries[j]).1
}

/// The serialized storage entries (a `Vec<StorageEntry>`) that
/// miden-objects makes of a layout, if it can make each entry.
pub uninterp spec fn entries_bytes(storage: Seq<EntryView>) -> Option<Seq<u8>>;

/// The serialized account component metadata that miden-objects makes of a
/// name, a description, a version text, a set of account types and
/// serialized storage entries, if it makes one.
pub uninterp spec fn metadata_bytes(
    name: Seq<char>,
    description: Seq<char>,
    version: Seq<char>,
    targets: Set<AccountKind>,
    entries: Seq<u8>,
) -> Option<Seq<u8>>;

pub open spec fn opt_bytes_view(o: Option<Vec<u8>>) -> Option<Seq<u8>> {
    match o {
        Some(b) => Some(b@),
        None => None,
    }
}

/// `StorageEntry::new_value` and `StorageEntry::new_map` of miden-objects,
/// serialized with `Serializable::to_bytes`: per element of `storage`, a
/// value entry whose word is a template named after the entry, of the
/// entry's type and with its description, or a map entry named after the
/// entry, with its description and no initial values, each in the entry's
/// slot. An entry is made whenever its name is a storage value name
/// (`StorageValueName::new`) and a value entry's type is a type name
/// (`TemplateType::new`), which the known word types are. The bytes
/// themselves are named, not stated.
#[verifier::external_body]
fn serialized_entries(storage: &Vec<StorageEntryDesc>) -> (r: Option<Vec<u8>>)
    ensures
        opt_bytes_view(r) == entries_bytes(entry_views(storage@)),
        entries_made(entry_views(storage@)) ==> r is Some,
{
    // A description, when there is one, is set with `with_description`.
    let entries = storage.iter().map(|e| {
        let name = StorageValueName::new(&e.name).ok()?;
        let d = e.description.clone().into_iter();
        Some(match e.kind {
            StorageKind::Value => StorageEntry::new_value(e.slot, d.fold(WordRepresentation::new_template(
                TemplateType::new(&e.word_type).ok()?, name), WordRepresentation::with_description)),
            _ => StorageEntry::new_map(e.slot,
                d.fold(MapRepresentation::new(vec![], name), MapRepresentation::with_description)),
        })
    });
    Some(entries.collect::<Option<Vec<_>>>()?.to_bytes())
}

/// `AccountComponentMetadata::new` of miden-objects, serialized with
/// `Serializable::to_bytes`: the component `name` and `description`, the
/// version `semver::Version::parse` reads from `version`, the set of
/// account types `targets`, and the storage entries that `entries`
/// serializes. For entries made from a layout (which read back as they
/// were written), the metadata is made exactly when the version is a
/// semantic version and miden-objects' validation accepts the layout:
/// slots 0, 1, ... without repetition, distinct entry names (a value
/// entry's template takes its entry's name, a map without values has no
/// template) and known word types. The bytes themselves are named, not
/// stated.
#[verifier::external_body]
fn serialized_metadata(
    name: &str,
    description: &str,
    version: &str,
    targets: &Vec<AccountKind>,
    entries: &Vec<u8>,
) -> (r: Option<Vec<u8>>)
    ensures
        opt_bytes_view(r) == metadata_bytes(name@, description@, version@, targets@.to_set(), entries@),
        forall|layout: Seq<EntryView>| #[trigger] entries_bytes(layout) == Some(entries@)
            ==> (r is Some <==> (semver_parse(version@) is Some && layout_accepted(layout))),
{
    let entries = Vec::<StorageEntry>::read_from_bytes(entries).ok()?;
    let targets = targets.iter().map(|t| match t {
        AccountKind::FungibleFaucet => AccountType::FungibleFaucet,
        AccountKind::NonFungibleFaucet => AccountType::NonFungibleFaucet,
        AccountKind::RegularAccountImmutableCode => AccountType::RegularAccountImmutableCode,
        AccountKind::RegularAccountUpdatableCode => AccountType::RegularAccountUpdatableCode,
    });
    AccountComponentMetadata::new(name.into(), description.into(), Version::parse(version).ok()?,
        targets.collect(), entries).ok().map(|m| m.to_bytes())
}

/// The kind of field type a storage field may have.
#[derive(Debug)]
pub enum FieldType {
    /// A type path; its last segment, if it has one.
    Path(Option<String>),
    /// Any other type.
    Other,
}

/// The kind of storage entry a field type declares: `StorageMap` a map,
/// `Value` a value, a type that is not a path (or has no segment) none.
pub open spec fn spec_entry_kind(ty: FieldType) -> Option<StorageKind> {
    match ty {
        FieldType::Path(Some(seg)) => if seg@ == "StorageMap"@ {
            Some(StorageKind::StorageMap)
        } else {
            Some(StorageKind::Value)
        },
        _ => None,
    }
}

/// A field type is one a storage entry can be made of: a path ending in
/// `StorageMap` or `Value`, or a type that declares no entry.
pub open spec fn supported_field_type(ty: FieldType) -> bool {
    match ty {
        FieldType::Path(Some(seg)) => seg@ == "StorageMap"@ || seg@ == "Value"@,
        _ => true,
    }
}

/// Builder of the metadata of an account component.
pub struct AccountComponentMetadataBuilder {
    /// The human-readable name of the component.
    name: String,
    /// A brief description of what this component is and how it works.
    description: String,
    /// The version of the component, as a semantic version's text.
    version: String,
    /// The supported target account types, each once, in the order they
    /// were first added.
    targets: Vec<AccountKind>,
    /// The entries defining the component's storage layout, in the order
    /// they were added.
    storage: Vec<StorageEntryDesc>,
}

/// The metadata being built, as plain values.
pub struct BuilderView {
    pub name: Seq<char>,
    pub description: Seq<char>,
    pub version: Seq<char>,
    pub targets: Seq<AccountKind>,
    pub storage: Seq<EntryView>,
}

impl View for AccountComponentMetadataBuilder {
    type V = BuilderView;

    closed spec fn view(&self) -> BuilderView {
        BuilderView {
            name: self.name@,
            description: self.description@,
            version: self.version@,
            targets: self.targets@,
            storage: entry_views(self.storage@),
        }
    }
}

impl AccountComponentMetadataBuilder {
    /// A builder for the component `name` at `version` (the text of a
    /// semantic version) described by `description`, with no supported
    /// account type and no storage.
    pub fn new(name: String, version: String, description: String) -> (r: Self)
        ensures
            r@.name == name@,
            r@.description == description@,
            r@.version == version@,
            r@.targets.len() == 0,
            r@.storage.len() == 0,
    {
        let r = AccountComponentMetadataBuilder {
            name,
            description,
            version,
            targets: Vec::new(),
            storage: Vec::new(),
        };
        assert(r@.storage =~= Seq::<EntryView>::empty());
        r
    }

    /// Adds a supported account type; the types form a set, so one already
    /// there is not added again.
    pub fn add_supported_type(&mut self, account_type: AccountKind)
        ensures
            final(self)@.targets == if old(self)@.targets.contains(account_type) {
                old(self)@.targets
            } else {
                old(self)@.targets.push(account_type)
            },
            final(self)@.name == old(self)@.name,
            final(self)@.description == old(self)@.description,
            final(self)@.version == old(self)@.version,
            final(self)@.storage == old(self)@.storage,
    {
        let mut i: usize = 0;
        while i < self.targets.len()
            invariant
                i <= self.targets@.len(),
                forall|k: int| 0 <= k < i ==> self.targets@[k] != account_type,
            decreases self.targets@.len() - i,
        {
            if self.targets[i] == account_type {
                return;
            }
            i = i + 1;
        }
        self.targets.push(account_type);
    }

    /// Adds the storage entry of a field named `name` of type `field_type`
    /// in slot `slot`, with the field's type attribute: a map for a
    /// `StorageMap` field, a value for a `Value` field, nothing for a type
    /// that is not a path.
    pub fn add_storage_entry(
        &mut self,
        name: &str,
        description: Option<String>,
        slot: u8,
        field_type: &FieldType,
        field_type_str: Option<String>,
    )
        requires
            supported_field_type(*field_type),
        ensures
            final(self)@.storage == match spec_entry_kind(*field_type) {
                Some(kind) => old(self)@.storage.push(
                    (kind, name@, opt_string_view(description), slot, entry_type(opt_string_view(field_type_str))),
                ),
                None => old(self)@.storage,
            },
            final(self)@.name == old(self)@.name,
            final(self)@.description == old(self)@.description,
            final(self)@.version == old(self)@.version,
            final(self)@.targets == old(self)@.targets,
    {
        if let FieldType::Path(Some(seg)) = field_type {
            proof {
                reveal_strlit("StorageMap");
            }
            let kind = if crate::text::str_eq(seg.as_str(), "StorageMap") {
                StorageKind::StorageMap
            } else {
                StorageKind::Value
            };
            let ghost before = self.storage@;
            let word_type = match field_type_str {
                Some(t) => t,
                None => {
                    proof {
                        reveal_strlit("word");
                    }
                    "word".to_owned()
                },
            };
            let e = StorageEntryDesc { kind, name: name.to_owned(), description, slot, word_type };
            self.storage.push(e);
            assert(entry_views(self.storage@) =~= entry_views(before).push(e@));
        }
    }

    /// The component metadata, serialized: miden-objects makes it when the
    /// version is a semantic version and it accepts the storage layout; the
    /// account types are taken as a set and the entries in the order they
    /// were added.
    pub fn build(self) -> (r: Option<Vec<u8>>)
        ensures
            r is Some <==> (semver_parse(self@.version) is Some && layout_accepted(self@.storage)),
            opt_bytes_view(r) == match entries_bytes(self@.storage) {
                Some(b) => metadata_bytes(self@.name, self@.description, self@.version, self@.targets.to_set(), b),
                None => None,
            },
    {
        match serialized_entries(&self.storage) {
            Some(entries) => {
                let r = serialized_metadata(self.name.as_str(), self.description.as_str(), self.version.as_str(),
                    &self.targets, &entries);
                assert(entries_bytes(self@.storage) == Some(entries@));
                r
            },
            None => None,
        }
    }
}

/// The name of an account type, as the manifest writes it.
pub open spec fn account_kind_name(k: AccountKind) -> Seq<char> {
    match k {
        AccountKind::FungibleFaucet => "FungibleFaucet"@,
        AccountKind::NonFungibleFaucet => "NonFungibleFaucet"@,
        AccountKind::RegularAccountImmutableCode => "RegularAccountImmutableCode"@,
        AccountKind::RegularAccountUpdatableCode => "RegularAccountUpdatableCode"@,
    }
}

/// Reading an account type name gives the account type of exactly that
/// name: every account type is read from its own name, and a name read as
/// an account type is that type's name.
pub proof fn lemma_account_kind_names(s: Seq<char>, k: AccountKind)
    ensures
        spec_account_kind(account_kind_name(k)) == Some(k),
        spec_account_kind(s) == Some(k) ==> s == account_kind_name(k),
{
    reveal_strlit("FungibleFaucet");
    reveal_strlit("NonFungibleFaucet");
    reveal_strlit("RegularAccountImmutableCode");
    reveal_strlit("RegularAccountUpdatableCode");
    assert("FungibleFaucet"@.len() != "NonFungibleFaucet"@.len());
    assert("FungibleFaucet"@.len() != "RegularAccountImmutableCode"@.len());
    assert("FungibleFaucet"@.len() != "RegularAccountUpdatableCode"@.len());
    assert("NonFungibleFaucet"@.len() != "RegularAccountImmutableCode"@.len());
    assert("NonFungibleFaucet"@.len() != "RegularAccountUpdatableCode"@.len());
    assert("RegularAccountImmutableCode"@[14] != "RegularAccountUpdatableCode"@[14]);
}

} // verus!
