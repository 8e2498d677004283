use miden_compiler::miden_abi::{
    get_transform_strategy, list_return, no_transform, return_via_pointer,
    transform_miden_abi_call, IrType, ResultStore, TransformStrategy, ValueRef,
};
use miden_compiler::symbol::{SymbolNameComponent, SymbolPath};

fn path(root: bool, comps: &[&str]) -> SymbolPath {
    let mut p = Vec::new();
    if root {
        p.push(SymbolNameComponent::Root);
    }
    for (i, c) in comps.iter().enumerate() {
        if i + 1 == comps.len() {
            p.push(SymbolNameComponent::Leaf(c.to_string()));
        } else {
            p.push(SymbolNameComponent::Component(c.to_string()));
        }
    }
    SymbolPath { path: p }
}

fn v(id: u32, ty: IrType) -> ValueRef {
    ValueRef { id, ty }
}

#[test]
fn strategies_of_known_procedures() {
    let cases: &[(&[&str], Option<TransformStrategy>)] = &[
        (&["std", "mem", "pipe_words_to_memory"], Some(TransformStrategy::ReturnViaPointer)),
        (&["std", "mem", "pipe_double_words_to_memory"], Some(TransformStrategy::ReturnViaPointer)),
        (&["std", "crypto", "hashes", "blake3", "hash_1to1"], Some(TransformStrategy::ReturnViaPointer)),
        (&["std", "crypto", "hashes", "blake3", "hash_2to1"], Some(TransformStrategy::ReturnViaPointer)),
        (&["std", "crypto", "dsa", "rpo_falcon512", "rpo_falcon512_verify"], Some(TransformStrategy::NoTransform)),
        (&["miden", "account", "get_id"], Some(TransformStrategy::NoTransform)),
        (&["miden", "account", "incr_nonce"], Some(TransformStrategy::NoTransform)),
        (&["miden", "account", "add_asset"], Some(TransformStrategy::ReturnViaPointer)),
        (&["miden", "account", "remove_asset"], Some(TransformStrategy::ReturnViaPointer)),
        (&["miden", "account", "get_item"], Some(TransformStrategy::ReturnViaPointer)),
        (&["miden", "account", "set_item"], Some(TransformStrategy::ReturnViaPointer)),
        (&["miden", "account", "get_map_item"], Some(TransformStrategy::ReturnViaPointer)),
        (&["miden", "account", "set_map_item"], Some(TransformStrategy::ReturnViaPointer)),
        (&["miden", "note", "get_inputs"], Some(TransformStrategy::ListReturn)),
        (&["miden", "tx", "create_note"], Some(TransformStrategy::NoTransform)),
        (&["miden", "tx", "unknown"], None),
        (&["std", "mem"], None),
        (&["other", "account", "get_id"], None),
    ];
    for (comps, expected) in cases {
        assert_eq!(get_transform_strategy(&path(false, comps)), *expected, "{:?}", comps);
        assert_eq!(get_transform_strategy(&path(true, comps)), *expected, "{:?}", comps);
    }
}

#[test]
fn the_procedure_name_must_be_a_leaf() {
    let p = SymbolPath {
        path: vec![
            SymbolNameComponent::Component("miden".to_string()),
            SymbolNameComponent::Component("tx".to_string()),
            SymbolNameComponent::Component("create_note".to_string()),
        ],
    };
    assert_eq!(get_transform_strategy(&p), None);
}

#[test]
fn list_return_keeps_the_length() {
    let args = [v(1, IrType::I32)];
    let results = [v(10, IrType::Felt), v(11, IrType::I32)];
    let l = list_return(&args, &results);
    assert_eq!(l.exec_args, args.to_vec());
    assert_eq!(l.returned, vec![results[0]]);
    assert!(l.stores.is_empty());
}

#[test]
fn return_via_pointer_stores_each_result() {
    let args = [v(1, IrType::Felt), v(2, IrType::Felt), v(3, IrType::I32)];
    let results = [v(10, IrType::Felt), v(11, IrType::Felt), v(12, IrType::Felt)];
    let l = return_via_pointer(&args, &results, &[0, 8, 16]);
    assert_eq!(l.exec_args, args[..2].to_vec());
    assert!(l.returned.is_empty());
    assert_eq!(l.pointer, Some(args[2]));
    assert_eq!(
        l.stores,
        vec![
            ResultStore { value: results[0], offset: None },
            ResultStore { value: results[1], offset: Some(8) },
            ResultStore { value: results[2], offset: Some(16) },
        ]
    );
}

#[test]
fn no_transform_passes_everything() {
    let args = [v(1, IrType::Felt)];
    let results = [v(5, IrType::Felt), v(6, IrType::U32)];
    let l = no_transform(&args, &results);
    assert_eq!(l.exec_args, args.to_vec());
    assert_eq!(l.returned, results.to_vec());
    assert_eq!(l.pointer, None);
}

#[test]
fn transform_dispatches_on_the_strategy() {
    let args = [v(1, IrType::Felt), v(2, IrType::I32)];
    let results = [v(7, IrType::Felt), v(8, IrType::Felt)];
    let l = transform_miden_abi_call(&path(true, &["miden", "note", "get_inputs"]), &args, &results, &[]);
    assert_eq!(l.returned, vec![results[0]]);
    let l = transform_miden_abi_call(&path(false, &["miden", "account", "get_item"]), &args, &results, &[0, 8]);
    assert_eq!(l.exec_args, vec![args[0]]);
    assert_eq!(l.stores.len(), 2);
    let l = transform_miden_abi_call(&path(false, &["miden", "account", "get_id"]), &args, &results, &[]);
    assert_eq!(l.returned, results.to_vec());
}
