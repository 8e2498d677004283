//! The `#[component]` attribute on an account component struct: every field
//! carries one `#[storage(...)]` attribute, which is taken off the field,
//! gives the field's slot in the generated `Default` implementation, and adds
//! the field's storage entry to the component's metadata.
use vstd::prelude::*;
use crate::account_component_metadata::{
    account_kind_name, account_type_from_str, entries_bytes, lemma_account_kind_names, entry_type, layout_accepted, metadata_bytes, spec_account_kind, spec_entry_kind,
    supported_field_type, AccountComponentMetadataBuilder, AccountKind, EntryView, FieldType,
};
use crate::package_metadata::{semver_parse, CargoMetadata};
use crate::storage_attr::{
    args_view, parse_storage_attribute, spec_parse_attr, ArgsView, AttrError, Attribute,
    StorageAttributeArgs,
};

verus! {

/// A named field of the component struct.
#[derive(Debug)]
pub struct StructField {
    pub name: String,
    pub ty: FieldType,
    pub attrs: Vec<Attribute>,
}

/// The initialiser of a field in the generated `Default` implementation:
/// the field (by its position) is the storage handle of slot `slot`.
#[derive(Debug)]
pub struct FieldInit {
    pub field: usize,
    pub name: String,
    pub slot: u8,
}

/// The storage arguments of a field (the last `storage` attribute wins) and
/// the errors met while reading its attributes, in order: a malformed
/// `storage` attribute, or a `storage` attribute after another one.
pub open spec fn attr_scan(attrs: Seq<Attribute>) -> (Option<ArgsView>, Seq<AttrError>)
    decreases attrs.len(),
{
    if attrs.len() == 0 {
        (None, Seq::empty())
    } else {
        let (st, errs) = attr_scan(attrs.drop_last());
        match spec_parse_attr(attrs.last()) {
            Ok(Some(a)) => (Some(a), if st is Some { errs.push(AttrError::Duplicate) } else { errs }),
            Ok(None) => (st, errs),
            Err(e) => (st, errs.push(e)),
        }
    }
}

/// The attributes a field keeps: all but its valid `storage` attributes.
pub open spec fn kept_attrs(attrs: Seq<Attribute>) -> Seq<Attribute>
    decreases attrs.len(),
{
    if attrs.len() == 0 {
        Seq::empty()
    } else {
        let prev = kept_attrs(attrs.drop_last());
        if spec_parse_attr(attrs.last()) matches Ok(Some(_)) {
            prev
        } else {
            prev.push(attrs.last())
        }
    }
}

/// The errors of one field: those of its attributes, then a missing
/// `storage` attribute.
pub open spec fn field_errors(f: StructField) -> Seq<AttrError> {
    let (st, errs) = attr_scan(f.attrs@);
    if st is Some {
        errs
    } else {
        errs.push(AttrError::MissingStorage)
    }
}

/// The errors of all fields, in field order.
pub open spec fn all_errors(fields: Seq<StructField>) -> Seq<AttrError>
    decreases fields.len(),
{
    if fields.len() == 0 {
        Seq::empty()
    } else {
        all_errors(fields.drop_last()) + field_errors(fields.last())
    }
}

/// The initialisers of the fields with storage: position, name and slot.
pub open spec fn field_inits(fields: Seq<StructField>) -> Seq<(int, Seq<char>, u8)>
    decreases fields.len(),
{
    if fields.len() == 0 {
        Seq::empty()
    } else {
        let prev = field_inits(fields.drop_last());
        match attr_scan(fields.last().attrs@).0 {
            Some(a) => prev.push((fields.len() - 1, fields.last().name@, a.0)),
            None => prev,
        }
    }
}

/// The storage entries the fields with storage add, in field order.
pub open spec fn field_entries(fields: Seq<StructField>) -> Seq<EntryView>
    decreases fields.len(),
{
    if fields.len() == 0 {
        Seq::empty()
    } else {
        let prev = field_entries(fields.drop_last());
        match (attr_scan(fields.last().attrs@).0, spec_entry_kind(fields.last().ty)) {
            (Some(a), Some(kind)) => prev.push((kind, fields.last().name@, a.1, a.0, entry_type(a.2))),
            _ => prev,
        }
    }
}

/// Every field with storage has a type a storage entry can be made of.
pub open spec fn fields_supported(fields: Seq<StructField>) -> bool {
    forall|i: int| 0 <= i < fields.len() ==> (attr_scan((#[trigger] fields[i]).attrs@).0 is Some
        ==> supported_field_type(fields[i].ty))
}

pub open spec fn init_view(i: FieldInit) -> (int, Seq<char>, u8) {
    (i.field as int, i.name@, i.slot)
}

/// Reads the storage attributes of one field and takes the valid ones off.
fn scan_field(attrs: Vec<Attribute>) -> (r: (Option<StorageAttributeArgs>, Vec<AttrError>, Vec<Attribute>))
    ensures
        match attr_scan(attrs@).0 {
            Some(a) => r.0 matches Some(ra) && args_view(ra) == a,
            None => r.0 is None,
        },
        r.1@ == attr_scan(attrs@).1,
        r.2@ == kept_attrs(attrs@),
{
    let n = attrs.len();
    let mut rest = attrs;
    let ghost all = rest@;
    let mut storage_args: Option<StorageAttributeArgs> = None;
    let mut errors: Vec<AttrError> = Vec::new();
    let mut kept: Vec<Attribute> = Vec::new();
    let mut k: usize = 0;
    while rest.len() > 0
        invariant
            k <= all.len(),
            all.len() == n,
            rest@ == all.skip(k as int),
            match attr_scan(all.take(k as int)).0 {
                Some(a) => storage_args matches Some(ra) && args_view(ra) == a,
                None => storage_args is None,
            },
            errors@ == attr_scan(all.take(k as int)).1,
            kept@ == kept_attrs(all.take(k as int)),
        decreases rest@.len(),
    {
        let attr = rest.remove(0);
        assert(all.take(k + 1).drop_last() =~= all.take(k as int));
        assert(all.take(k + 1).last() == attr);
        match parse_storage_attribute(&attr) {
            Ok(Some(args)) => {
                if storage_args.is_some() {
                    errors.push(AttrError::Duplicate);
                }
                storage_args = Some(args);
            },
            Ok(None) => {
                kept.push(attr);
            },
            Err(e) => {
                errors.push(e);
                kept.push(attr);
            },
        }
        k = k + 1;
        assert(rest@ =~= all.skip(k as int));
    }
    assert(all.take(k as int) =~= all);
    (storage_args, errors, kept)
}

/// Processes struct fields: takes their storage attributes off, adds their
/// storage entries to the metadata, and gives the field initialisers of the
/// `Default` implementation; the first error met, if any, refuses the
/// fields (the entries of the fields with storage are added all the same).
pub fn process_fields(
    fields: &mut Vec<StructField>,
    builder: &mut AccountComponentMetadataBuilder,
) -> (r: Result<Vec<FieldInit>, AttrError>)
    requires
        fields_supported(old(fields)@),
        old(fields)@.len() < usize::MAX,
    ensures
        all_errors(old(fields)@).len() > 0 ==> r == Err::<Vec<FieldInit>, AttrError>(all_errors(old(fields)@)[0]),
        all_errors(old(fields)@).len() == 0 ==> (r matches Ok(inits) && inits@.map_values(|i: FieldInit| init_view(i)) == field_inits(old(fields)@)),
        final(builder)@.storage == old(builder)@.storage + field_entries(old(fields)@),
        final(builder)@.name == old(builder)@.name,
        final(builder)@.description == old(builder)@.description,
        final(builder)@.version == old(builder)@.version,
        final(builder)@.targets == old(builder)@.targets,
        final(fields)@.len() == old(fields)@.len(),
        forall|i: int| 0 <= i < final(fields)@.len() ==> (#[trigger] final(fields)@[i]).name == old(fields)@[i].name
            && final(fields)@[i].ty == old(fields)@[i].ty
            && final(fields)@[i].attrs@ == kept_attrs(old(fields)@[i].attrs@),
{
    let ghost all = fields@;
    let ghost start = builder@.storage;
    let mut rest: Vec<StructField> = Vec::new();
    std::mem::swap(fields, &mut rest);
    let mut done: Vec<StructField> = Vec::new();
    let mut inits: Vec<FieldInit> = Vec::new();
    let mut errors: Vec<AttrError> = Vec::new();
    let mut k: usize = 0;
    while rest.len() > 0
        invariant
            k <= all.len(),
            all.len() < usize::MAX,
            fields_supported(all),
            rest@ == all.skip(k as int),
            done@.len() == k,
            forall|i: int| 0 <= i < k ==> (#[trigger] done@[i]).name == all[i].name
                && done@[i].ty == all[i].ty
                && done@[i].attrs@ == kept_attrs(all[i].attrs@),
            errors@ == all_errors(all.take(k as int)),
            inits@.map_values(|i: FieldInit| init_view(i)) == field_inits(all.take(k as int)),
            builder@.storage == start + field_entries(all.take(k as int)),
            builder@.name == old(builder)@.name,
            builder@.description == old(builder)@.description,
            builder@.version == old(builder)@.version,
            builder@.targets == old(builder)@.targets,
        decreases rest@.len(),
    {
        let field = rest.remove(0);
        assert(all.take(k + 1).drop_last() =~= all.take(k as int));
        assert(all.take(k + 1).last() == field);
        assert(all[k as int] == field);
        let StructField { name, ty, attrs } = field;
        let ghost old_attrs = attrs@;
        let (storage_args, field_errs, kept) = scan_field(attrs);
        let mut j: usize = 0;
        let ghost errors_before = errors@;
        while j < field_errs.len()
            invariant
                j <= field_errs@.len(),
                errors@ == errors_before + field_errs@.take(j as int),
            decreases field_errs@.len() - j,
        {
            errors.push(field_errs[j]);
            j = j + 1;
            assert(errors@ =~= errors_before + field_errs@.take(j as int));
        }
        assert(field_errs@.take(field_errs@.len() as int) =~= field_errs@);
        match storage_args {
            Some(args) => {
                let ghost inits_before = inits@;
                inits.push(FieldInit { field: k, name: name.clone(), slot: args.slot });
                assert(inits@.map_values(|i: FieldInit| init_view(i)) =~= inits_before.map_values(|i: FieldInit| init_view(i)).push((k as int, name@, args.slot)));
                assert(attr_scan(all[k as int].attrs@).0 is Some);
                let ghost storage_before = builder@.storage;
                builder.add_storage_entry(name.as_str(), args.description, args.slot, &ty, args.type_attr);
                assert(builder@.storage =~= start + field_entries(all.take(k + 1)));
            },
            None => {
                errors.push(AttrError::MissingStorage);
                assert(errors@ =~= errors_before + field_errors(all[k as int]));
            },
        }
        assert(errors@ =~= all_errors(all.take(k + 1)));
        done.push(StructField { name, ty, attrs: kept });
        k = k + 1;
        assert(rest@ =~= all.skip(k as int));
    }
    assert(all.take(k as int) =~= all);
    *fields = done;
    if errors.len() > 0 {
        Err(errors[0])
    } else {
        Ok(inits)
    }
}

/// Why a component could not be expanded.
#[derive(Debug)]
pub enum ComponentError {
    /// A supported type of the manifest names no account type.
    InvalidAccountType(String),
    /// A field's storage attributes were refused.
    Field(AttrError),
    /// miden-objects refused the metadata.
    MetadataRejected,
}

/// The expansion of a component: the initialisers of its `Default`
/// implementation and its serialized metadata.
#[derive(Debug)]
pub struct ComponentExpansion {
    pub field_inits: Vec<FieldInit>,
    pub metadata_bytes: Vec<u8>,
}

/// The first supported type that names no account type, if any.
pub open spec fn first_invalid_type(types: Seq<String>) -> Option<int>
    decreases types.len(),
{
    if types.len() == 0 {
        None
    } else {
        match first_invalid_type(types.drop_last()) {
            Some(i) => Some(i),
            None => if spec_account_kind(types.last()@) is None { Some(types.len() - 1) } else { None },
        }
    }
}

/// The account types that the supported-type names stand for, as a set.
pub open spec fn spec_targets(types: Seq<String>) -> Set<AccountKind> {
    types.map_values(|t: String| spec_account_kind(t@)->Some_0).to_set()
}

/// Account component expansion: the supported account types of the package
/// are checked, the fields' storage attributes processed, and the metadata
/// built from the package's name, description, version and supported types
/// and the fields' storage entries, and serialized. The first invalid
/// supported type, else the first field error, refuses the component; a
/// version that is not a semantic version or slots that are not 0, 1, ...
/// without repetition make miden-objects refuse the metadata.
pub fn component(fields: &mut Vec<StructField>, metadata: &CargoMetadata) -> (r: Result<ComponentExpansion, ComponentError>)
    requires
        fields_supported(old(fields)@),
        old(fields)@.len() < usize::MAX,
    ensures
        match first_invalid_type(metadata.supported_types@) {
            Some(i) => r matches Err(ComponentError::InvalidAccountType(t)) && t@ == metadata.supported_types@[i]@,
            None => if all_errors(old(fields)@).len() > 0 {
                r matches Err(ComponentError::Field(e)) && e == all_errors(old(fields)@)[0]
            } else if semver_parse(metadata.version@) is Some && layout_accepted(field_entries(old(fields)@)) {
                r matches Ok(x) && x.field_inits@.map_values(|i: FieldInit| init_view(i)) == field_inits(old(fields)@)
                    && Some(x.metadata_bytes@) == metadata_bytes(
                        metadata.name@,
                        metadata.description@,
                        metadata.version@,
                        spec_targets(metadata.supported_types@),
                        entries_bytes(field_entries(old(fields)@))->Some_0,
                    )
            } else {
                r matches Err(ComponentError::MetadataRejected)
            },
        },
        first_invalid_type(metadata.supported_types@) is None ==> forall|i: int| 0 <= i < final(fields)@.len()
            ==> (#[trigger] final(fields)@[i]).attrs@ == kept_attrs(old(fields)@[i].attrs@),
{
    let mut builder = AccountComponentMetadataBuilder::new(
        metadata.name.clone(),
        metadata.version.clone(),
        metadata.description.clone(),
    );
    let ghost types = metadata.supported_types@;
    let mut i: usize = 0;
    while i < metadata.supported_types.len()
        invariant
            i <= types.len(),
            types == metadata.supported_types@,
            first_invalid_type(types.take(i as int)) is None,
            builder@.targets.to_set() == spec_targets(types.take(i as int)),
            builder@.storage.len() == 0,
            builder@.name == metadata.name@,
            builder@.description == metadata.description@,
            builder@.version == metadata.version@,
        decreases types.len() - i,
    {
        assert(types.take(i + 1).drop_last() =~= types.take(i as int));
        match account_type_from_str(metadata.supported_types[i].as_str()) {
            Some(kind) => {
                let ghost before = builder@.targets;
                builder.add_supported_type(kind);
                proof {
                    lemma_first_valid_types(types, i as int);
                    assert(types.take(i + 1).map_values(|t: String| spec_account_kind(t@)->Some_0)
                        =~= types.take(i as int).map_values(|t: String| spec_account_kind(t@)->Some_0).push(kind));
                    types.take(i as int).map_values(|t: String| spec_account_kind(t@)->Some_0).lemma_push_to_set_commute(kind);
                    if before.contains(kind) {
                        assert(before.to_set().insert(kind) =~= before.to_set());
                    } else {
                        before.lemma_push_to_set_commute(kind);
                    }
                }
            },
            None => {
                proof {
                    lemma_first_invalid_stays(types, i as int + 1);
                    assert(types.take(types.len() as int) =~= types);
                }
                return Err(ComponentError::InvalidAccountType(metadata.supported_types[i].clone()));
            },
        }
        i = i + 1;
    }
    assert(types.take(types.len() as int) =~= types);
    let field_inits = match process_fields(fields, &mut builder) {
        Ok(inits) => inits,
        Err(e) => return Err(ComponentError::Field(e)),
    };
    assert(builder@.storage =~= field_entries(old(fields)@));
    match builder.build() {
        Some(bytes) => Ok(ComponentExpansion { field_inits, metadata_bytes: bytes }),
        None => Err(ComponentError::MetadataRejected),
    }
}

/// A valid type after a prefix without invalid ones leaves none in the
/// longer prefix.
proof fn lemma_first_valid_types(types: Seq<String>, i: int)
    requires
        0 <= i < types.len(),
        first_invalid_type(types.take(i)) is None,
        spec_account_kind(types[i]@) is Some,
    ensures
        first_invalid_type(types.take(i + 1)) is None,
{
    assert(types.take(i + 1).drop_last() =~= types.take(i));
}

/// Once a prefix of the supported types holds an invalid one, every longer
/// prefix has the same first invalid type.
proof fn lemma_first_invalid_stays(types: Seq<String>, k: int)
    requires
        0 < k <= types.len(),
        first_invalid_type(types.take(k - 1)) is None,
        spec_account_kind(types[k - 1]@) is None,
    ensures
        first_invalid_type(types.take(types.len() as int)) == Some(k - 1),
    decreases types.len() - k,
{
    assert(types.take(k).drop_last() =~= types.take(k - 1));
    if k < types.len() {
        lemma_first_invalid_grow(types, k, types.len() as int);
    }
}

/// A first invalid type found in a prefix is the first of every longer one.
proof fn lemma_first_invalid_grow(types: Seq<String>, k: int, m: int)
    requires
        0 < k <= m <= types.len(),
        first_invalid_type(types.take(k)) is Some,
    ensures
        first_invalid_type(types.take(m)) == first_invalid_type(types.take(k)),
    decreases m - k,
{
    if m > k {
        lemma_first_invalid_grow(types, k, m - 1);
        assert(types.take(m).drop_last() =~= types.take(m - 1));
    }
}



/// A field whose attributes are read without error keeps no `storage`
/// attribute: each one is either taken off or an error.
proof fn lemma_kept_no_storage(attrs: Seq<Attribute>)
    requires
        attr_scan(attrs).1.len() == 0,
    ensures
        forall|j: int| 0 <= j < kept_attrs(attrs).len() ==> (#[trigger] kept_attrs(attrs)[j]).path@ != "storage"@,
    decreases attrs.len(),
{
    if attrs.len() > 0 {
        let (st, errs) = attr_scan(attrs.drop_last());
        assert(errs.len() == 0);
        lemma_kept_no_storage(attrs.drop_last());
        assert forall|j: int| 0 <= j < kept_attrs(attrs).len() implies (#[trigger] kept_attrs(attrs)[j]).path@ != "storage"@ by {
            if j < kept_attrs(attrs.drop_last()).len() {
                assert(kept_attrs(attrs)[j] == kept_attrs(attrs.drop_last())[j]);
            }
        }
    }
}

/// Fields that the component accepts (no field error) keep none of their
/// `storage` attributes: every attribute left on a field after
/// `process_fields` is some other attribute.
pub proof fn lemma_accepted_fields_keep_no_storage(fields: Seq<StructField>)
    requires
        all_errors(fields).len() == 0,
    ensures
        forall|i: int, j: int| 0 <= i < fields.len() && 0 <= j < kept_attrs(fields[i].attrs@).len()
            ==> (#[trigger] kept_attrs(fields[i].attrs@)[j]).path@ != "storage"@,
    decreases fields.len(),
{
    if fields.len() > 0 {
        let prev = fields.drop_last();
        assert(all_errors(fields) == all_errors(prev) + field_errors(fields.last()));
        assert(all_errors(prev).len() == 0);
        assert(field_errors(fields.last()).len() == 0);
        lemma_accepted_fields_keep_no_storage(prev);
        lemma_kept_no_storage(fields.last().attrs@);
        assert forall|i: int, j: int| 0 <= i < fields.len() && 0 <= j < kept_attrs(fields[i].attrs@).len()
            implies (#[trigger] kept_attrs(fields[i].attrs@)[j]).path@ != "storage"@ by {
            if i < fields.len() - 1 {
                assert(fields[i] == prev[i]);
            }
        }
    }
}

/// Supported types without an invalid one all name account types.
proof fn lemma_all_types_valid(types: Seq<String>)
    requires
        first_invalid_type(types) is None,
    ensures
        forall|i: int| 0 <= i < types.len() ==> spec_account_kind((#[trigger] types[i])@) is Some,
    decreases types.len(),
{
    if types.len() > 0 {
        lemma_all_types_valid(types.drop_last());
        assert forall|i: int| 0 <= i < types.len() implies spec_account_kind((#[trigger] types[i])@) is Some by {
            if i < types.len() - 1 {
                assert(types[i] == types.drop_last()[i]);
            }
        }
    }
}

/// The account types a component supports are exactly the ones its
/// manifest names: when every supported type is valid, an account type is
/// among the component's targets if and only if some supported type is
/// its name.
pub proof fn lemma_targets_are_the_named_kinds(types: Seq<String>, k: AccountKind)
    requires
        first_invalid_type(types) is None,
    ensures
        spec_targets(types).contains(k) <==> exists|i: int| 0 <= i < types.len() && (#[trigger] types[i])@ == account_kind_name(k),
{
    lemma_all_types_valid(types);
    let m = types.map_values(|t: String| spec_account_kind(t@)->Some_0);
    if spec_targets(types).contains(k) {
        let i = choose|i: int| 0 <= i < m.len() && m[i] == k;
        lemma_account_kind_names(types[i]@, k);
        assert(spec_account_kind(types[i]@) == Some(k));
        assert(types[i]@ == account_kind_name(k));
    }
    if exists|i: int| 0 <= i < types.len() && (#[trigger] types[i])@ == account_kind_name(k) {
        let i = choose|i: int| 0 <= i < types.len() && (#[trigger] types[i])@ == account_kind_name(k);
        lemma_account_kind_names(types[i]@, k);
        assert(m[i] == k);
        assert(m.contains(k));
    }
}

} // verus!
