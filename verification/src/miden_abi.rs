//! Calls into Miden ABI procedures (the standard library and the transaction
//! kernel) and how a call of one is lowered.
//!
//! Some procedures return their results differently from what the Wasm
//! calling convention of the caller expects; the strategy for a procedure
//! decides how a call is rewritten: passed through, cut down to a list's
//! length, or written through a pointer argument.
use vstd::prelude::*;
use crate::symbol::{NameComponent, SymbolNameComponent, SymbolPath};
use crate::text::str_eq;

verus! {

/// The strategy to use for transforming a function call.
#[derive(Clone, Copy, Debug, PartialEq, Eq, Structural)]
pub enum TransformStrategy {
    /// The Miden ABI function returns a length and a pointer and we only want
    /// the length.
    ListReturn,
    /// The Miden ABI function returns on the stack and we want to return via
    /// a pointer argument.
    ReturnViaPointer,
    /// No transformation needed.
    NoTransform,
}

/// The name a path component carries (the root carries none).
pub open spec fn component_name(c: NameComponent) -> Option<Seq<char>> {
    match c {
        NameComponent::Root => None,
        NameComponent::Component(s) => Some(s),
        NameComponent::Leaf(s) => Some(s),
    }
}

/// Component `i` of `q` exists and is named `name`.
pub open spec fn named(q: Seq<NameComponent>, i: int, name: Seq<char>) -> bool {
    i < q.len() && component_name(q[i]) == Some(name)
}

/// Component `i` of `q` exists, is a leaf, and is named `name`.
pub open spec fn leaf_named(q: Seq<NameComponent>, i: int, name: Seq<char>) -> bool {
    i < q.len() && q[i] == NameComponent::Leaf(name)
}

/// The path without its leading root, if it has one.
pub open spec fn relative(p: Seq<NameComponent>) -> Seq<NameComponent> {
    if p.len() > 0 && p[0] is Root {
        p.drop_first()
    } else {
        p
    }
}

/// The transformation strategy of the Miden ABI procedure at path `p`; only
/// the components up to the procedure's name are read.
pub open spec fn spec_transform_strategy(p: Seq<NameComponent>) -> Option<TransformStrategy> {
    let q = relative(p);
    if named(q, 0, "std"@) && named(q, 1, "mem"@) && (leaf_named(q, 2, "pipe_words_to_memory"@)
        || leaf_named(q, 2, "pipe_double_words_to_memory"@)) {
        Some(TransformStrategy::ReturnViaPointer)
    } else if named(q, 0, "std"@) && named(q, 1, "crypto"@) && named(q, 2, "hashes"@) && named(
        q,
        3,
        "blake3"@,
    ) && (leaf_named(q, 4, "hash_1to1"@) || leaf_named(q, 4, "hash_2to1"@)) {
        Some(TransformStrategy::ReturnViaPointer)
    } else if named(q, 0, "std"@) && named(q, 1, "crypto"@) && named(q, 2, "dsa"@) && named(
        q,
        3,
        "rpo_falcon512"@,
    ) && leaf_named(q, 4, "rpo_falcon512_verify"@) {
        Some(TransformStrategy::NoTransform)
    } else if named(q, 0, "miden"@) && named(q, 1, "account"@) && (leaf_named(q, 2, "get_id"@)
        || leaf_named(q, 2, "incr_nonce"@)) {
        Some(TransformStrategy::NoTransform)
    } else if named(q, 0, "miden"@) && named(q, 1, "account"@) && (leaf_named(q, 2, "add_asset"@)
        || leaf_named(q, 2, "remove_asset"@) || leaf_named(q, 2, "get_item"@) || leaf_named(
        q,
        2,
        "set_item"@,
    ) || leaf_named(q, 2, "get_map_item"@) || leaf_named(q, 2, "set_map_item"@)) {
        Some(TransformStrategy::ReturnViaPointer)
    } else if named(q, 0, "miden"@) && named(q, 1, "note"@) && leaf_named(q, 2, "get_inputs"@) {
        Some(TransformStrategy::ListReturn)
    } else if named(q, 0, "miden"@) && named(q, 1, "tx"@) && leaf_named(q, 2, "create_note"@) {
        Some(TransformStrategy::NoTransform)
    } else {
        None
    }
}

/// Whether component `i` of the path (past `start`) is named `name`.
fn is_named(path: &SymbolPath, start: usize, i: usize, name: &str) -> (r: bool)
    requires
        start <= path.path@.len(),
        start <= 1,
    ensures
        r == named(path@.skip(start as int), i as int, name@),
{
    if i >= path.path.len() - start {
        return false;
    }
    match &path.path[start + i] {
        SymbolNameComponent::Root => false,
        SymbolNameComponent::Component(s) => str_eq(s.as_str(), name),
        SymbolNameComponent::Leaf(s) => str_eq(s.as_str(), name),
    }
}

/// Whether component `i` of the path (past `start`) is a leaf named `name`.
fn is_leaf_named(path: &SymbolPath, start: usize, i: usize, name: &str) -> (r: bool)
    requires
        start <= path.path@.len(),
        start <= 1,
    ensures
        r == leaf_named(path@.skip(start as int), i as int, name@),
{
    if i >= path.path.len() - start {
        return false;
    }
    match &path.path[start + i] {
        SymbolNameComponent::Leaf(s) => {
            let r = str_eq(s.as_str(), name);
            proof {
                if r {
                    assert(path@.skip(start as int)[i as int] == NameComponent::Leaf(name@));
                }
            }
            r
        },
        _ => false,
    }
}

/// Get the transformation strategy for a function name.
pub fn get_transform_strategy(path: &SymbolPath) -> (r: Option<TransformStrategy>)
    ensures
        r == spec_transform_strategy(path@),
{
    let start: usize = if path.path.len() > 0 && matches!(path.path[0], SymbolNameComponent::Root) {
        1
    } else {
        0
    };
    assert(relative(path@) =~= path@.skip(start as int));
    if is_named(path, start, 0, "std") && is_named(path, start, 1, "mem") && (is_leaf_named(
        path,
        start,
        2,
        "pipe_words_to_memory",
    ) || is_leaf_named(path, start, 2, "pipe_double_words_to_memory")) {
        Some(TransformStrategy::ReturnViaPointer)
    } else if is_named(path, start, 0, "std") && is_named(path, start, 1, "crypto") && is_named(
        path,
        start,
        2,
        "hashes",
    ) && is_named(path, start, 3, "blake3") && (is_leaf_named(path, start, 4, "hash_1to1")
        || is_leaf_named(path, start, 4, "hash_2to1")) {
        Some(TransformStrategy::ReturnViaPointer)
    } else if is_named(path, start, 0, "std") && is_named(path, start, 1, "crypto") && is_named(
        path,
        start,
        2,
        "dsa",
    ) && is_named(path, start, 3, "rpo_falcon512") && is_leaf_named(
        path,
        start,
        4,
        "rpo_falcon512_verify",
    ) {
        Some(TransformStrategy::NoTransform)
    } else if is_named(path, start, 0, "miden") && is_named(path, start, 1, "account") && (
    is_leaf_named(path, start, 2, "get_id") || is_leaf_named(path, start, 2, "incr_nonce")) {
        Some(TransformStrategy::NoTransform)
    } else if is_named(path, start, 0, "miden") && is_named(path, start, 1, "account") && (
    is_leaf_named(path, start, 2, "add_asset") || is_leaf_named(path, start, 2, "remove_asset")
        || is_leaf_named(path, start, 2, "get_item") || is_leaf_named(path, start, 2, "set_item")
        || is_leaf_named(path, start, 2, "get_map_item") || is_leaf_named(
        path,
        start,
        2,
        "set_map_item",
    )) {
        Some(TransformStrategy::ReturnViaPointer)
    } else if is_named(path, start, 0, "miden") && is_named(path, start, 1, "note")
        && is_leaf_named(path, start, 2, "get_inputs") {
        Some(TransformStrategy::ListReturn)
    } else if is_named(path, start, 0, "miden") && is_named(path, start, 1, "tx") && is_leaf_named(
        path,
        start,
        2,
        "create_note",
    ) {
        Some(TransformStrategy::NoTransform)
    } else {
        None
    }
}

/// The type of an IR value, as far as call lowering reads it.
#[derive(Clone, Copy, Debug, PartialEq, Eq, Structural)]
pub enum IrType {
    I32,
    U32,
    Felt,
    Other(u32),
}

/// An IR value: its identity and its type.
#[derive(Clone, Copy, Debug, PartialEq, Eq, Structural)]
pub struct ValueRef {
    pub id: u32,
    pub ty: IrType,
}

/// A result of the Miden ABI procedure written to memory through the
/// pointer argument: at the pointer itself (`None`) or at the pointer plus an
/// offset.
#[derive(Clone, Copy, Debug, PartialEq, Eq, Structural)]
pub struct ResultStore {
    pub value: ValueRef,
    pub offset: Option<u32>,
}

/// How a call of a Miden ABI procedure is lowered: the arguments passed to
/// the procedure, the values the calling function returns, and the results
/// written through the pointer argument (`pointer`, when there is one).
pub struct CallLowering {
    pub exec_args: Vec<ValueRef>,
    pub returned: Vec<ValueRef>,
    pub pointer: Option<ValueRef>,
    pub stores: Vec<ResultStore>,
}

fn copy_values(v: &[ValueRef]) -> (r: Vec<ValueRef>)
    ensures
        r@ == v@,
{
    let mut r: Vec<ValueRef> = Vec::new();
    let mut i: usize = 0;
    while i < v.len()
        invariant
            i <= v@.len(),
            r@ == v@.take(i as int),
        decreases v@.len() - i,
    {
        r.push(v[i]);
        i = i + 1;
        assert(r@ =~= v@.take(i as int));
    }
    assert(v@.take(v@.len() as int) =~= v@);
    r
}

/// No transformation needed: all arguments are passed and all results
/// returned.
pub fn no_transform(args: &[ValueRef], results: &[ValueRef]) -> (r: CallLowering)
    ensures
        r.exec_args@ == args@,
        r.returned@ == results@,
        r.pointer is None,
        r.stores@.len() == 0,
{
    CallLowering {
        exec_args: copy_values(args),
        returned: copy_values(results),
        pointer: None,
        stores: Vec::new(),
    }
}

/// The Miden ABI function returns a length and a pointer and we only want
/// the length.
pub fn list_return(args: &[ValueRef], results: &[ValueRef]) -> (r: CallLowering)
    requires
        results@.len() == 2,
    ensures
        r.exec_args@ == args@,
        r.returned@ == seq![results@[0]],
        r.pointer is None,
        r.stores@.len() == 0,
{
    let mut returned: Vec<ValueRef> = Vec::new();
    returned.push(results[0]);
    assert(returned@ =~= seq![results@[0]]);
    CallLowering { exec_args: copy_values(args), returned, pointer: None, stores: Vec::new() }
}

/// The stores that write the results through the pointer: the first at the
/// pointer itself, each other one at its offset.
pub open spec fn spec_result_stores(results: Seq<ValueRef>, offsets: Seq<u32>) -> Seq<ResultStore> {
    Seq::new(
        results.len(),
        |i: int| ResultStore { value: results[i], offset: if i == 0 { None } else { Some(offsets[i]) } },
    )
}

/// The Miden ABI function returns felts on the stack and we want to return
/// via a pointer argument: the last argument (an `i32` pointer) is held back,
/// and each result is stored at its offset (`offsets`, the field offsets of
/// the results laid out as a struct) from that pointer.
pub fn return_via_pointer(args: &[ValueRef], results: &[ValueRef], offsets: &[u32]) -> (r:
    CallLowering)
    requires
        args@.len() >= 1,
        args@.last().ty == IrType::I32,
        offsets@.len() == results@.len(),
    ensures
        r.exec_args@ == args@.drop_last(),
        r.returned@.len() == 0,
        r.pointer == Some(args@.last()),
        r.stores@ == spec_result_stores(results@, offsets@),
{
    let n = args.len() - 1;
    let mut exec_args: Vec<ValueRef> = Vec::new();
    let mut i: usize = 0;
    while i < n
        invariant
            n == args@.len() - 1,
            i <= n,
            exec_args@ == args@.take(i as int),
        decreases n - i,
    {
        exec_args.push(args[i]);
        i = i + 1;
        assert(exec_args@ =~= args@.take(i as int));
    }
    assert(args@.take(n as int) =~= args@.drop_last());
    let ptr = args[n];
    let mut stores: Vec<ResultStore> = Vec::new();
    let mut j: usize = 0;
    while j < results.len()
        invariant
            offsets@.len() == results@.len(),
            j <= results@.len(),
            stores@ == spec_result_stores(results@, offsets@).take(j as int),
        decreases results@.len() - j,
    {
        let offset = if j == 0 {
            None
        } else {
            Some(offsets[j])
        };
        stores.push(ResultStore { value: results[j], offset });
        j = j + 1;
        assert(stores@ =~= spec_result_stores(results@, offsets@).take(j as int));
    }
    assert(spec_result_stores(results@, offsets@).take(results@.len() as int) =~= spec_result_stores(results@, offsets@));
    CallLowering { exec_args, returned: Vec::new(), pointer: Some(ptr), stores }
}

/// What each strategy needs of a call: a list return yields a length and a
/// pointer; a return via pointer has a trailing `i32` pointer argument and a
/// field offset for each result.
pub open spec fn call_fits(
    strategy: TransformStrategy,
    args: Seq<ValueRef>,
    results: Seq<ValueRef>,
    offsets: Seq<u32>,
) -> bool {
    match strategy {
        TransformStrategy::ListReturn => results.len() == 2,
        TransformStrategy::ReturnViaPointer => args.len() >= 1 && args.last().ty == IrType::I32
            && offsets.len() == results.len(),
        TransformStrategy::NoTransform => true,
    }
}

/// Transform a Miden ABI function call based on the transformation strategy
/// of the called procedure, which must have one.
pub fn transform_miden_abi_call(
    import_path: &SymbolPath,
    args: &[ValueRef],
    results: &[ValueRef],
    offsets: &[u32],
) -> (r: CallLowering)
    requires
        spec_transform_strategy(import_path@) matches Some(s) && call_fits(s, args@, results@, offsets@),
    ensures
        match spec_transform_strategy(import_path@)->Some_0 {
            TransformStrategy::ListReturn => r.exec_args@ == args@ && r.returned@ == seq![results@[0]]
                && r.pointer is None && r.stores@.len() == 0,
            TransformStrategy::ReturnViaPointer => r.exec_args@ == args@.drop_last() && r.returned@.len() == 0
                && r.pointer == Some(args@.last()) && r.stores@ == spec_result_stores(results@, offsets@),
            TransformStrategy::NoTransform => r.exec_args@ == args@ && r.returned@ == results@
                && r.pointer is None && r.stores@.len() == 0,
        },
{
    match get_transform_strategy(import_path) {
        Some(TransformStrategy::ListReturn) => list_return(args, results),
        Some(TransformStrategy::ReturnViaPointer) => return_via_pointer(args, results, offsets),
        Some(TransformStrategy::NoTransform) => no_transform(args, results),
        None => unreached(),
    }
}

/// An absolute path and its relative form name the same procedure: a
/// leading root does not change the strategy.
pub proof fn lemma_strategy_ignores_root(p: Seq<NameComponent>)
    requires
        !(p.len() > 0 && p[0] is Root),
    ensures
        spec_transform_strategy(seq![NameComponent::Root] + p) == spec_transform_strategy(p),
{
    assert(relative(seq![NameComponent::Root] + p) =~= p);
    assert(relative(p) == p);
}

} // verus!
