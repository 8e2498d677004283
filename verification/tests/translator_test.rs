use miden_compiler::frame::{
    CanonLift, CanonLower, ClosedOverComponent, ClosedOverModule, ComponentFrame, ComponentFuncDef,
    ComponentInstanceDef, ComponentInstantiation, ComponentItem, ComponentItemDef, CoreDef, EntityIndex,
    ModuleDef, ModuleInstanceDef, TypeDef,
};
use miden_compiler::translator::{
    account_component_metadata, alias_component_export, component_export, component_import,
    core_module_export_func_path, finish_component_instantiation, initializer, is_core_module,
    module_import_args, root_component_instance_name, ClosedOverVars, ImportType, InitializerWork,
    LocalInitializer, ParsedComponent, ParsedModule, Unsupported,
};
use miden_compiler::symbol::SymbolNameComponent;

#[test]
fn unwrap_canon_lower_gives_the_lowering() {
    let lower = CanonLower { func: 3, lower_ty: 9 };
    let def = CoreDef::Lower(lower);
    assert_eq!(def.unwrap_canon_lower().lower_ty, 9);
    assert_eq!(def.unwrap_canon_lower().func, 3);
}

#[test]
fn definitions_append_to_their_index_space() {
    let lower = LocalInitializer::Lower(CanonLower { func: 0, lower_ty: 1 });
    let lift = LocalInitializer::Lift(CanonLift { ty: 2, func: 0 });
    let module = LocalInitializer::ModuleStatic(4);
    let alias = LocalInitializer::AliasExportFunc(0, "entry");
    let export = LocalInitializer::Export("run", ComponentItem::Func(0));
    let mut frame = ComponentFrame::new(Vec::new());
    assert!(matches!(initializer(&mut frame, &lower), Ok(InitializerWork::Done)));
    assert!(matches!(initializer(&mut frame, &lift), Ok(InitializerWork::Done)));
    assert!(matches!(initializer(&mut frame, &module), Ok(InitializerWork::Done)));
    assert!(matches!(initializer(&mut frame, &alias), Ok(InitializerWork::Done)));
    assert_eq!(frame.funcs.len(), 2);
    assert!(matches!(frame.funcs[1], CoreDef::Export(0, "entry")));
    assert_eq!(frame.component_funcs.len(), 1);
    assert!(matches!(frame.modules[0], ModuleDef::Static(4)));
    assert!(matches!(initializer(&mut frame, &export), Ok(InitializerWork::Done)));
    assert_eq!(frame.component_funcs.len(), 2);
    assert!(matches!(frame.component_funcs[1], ComponentFuncDef::Lifted(CanonLift { ty: 2, func: 0 })));
}

#[test]
fn unsupported_initializers_leave_the_frame_alone() {
    let cases = [
        (LocalInitializer::Resource, Unsupported::ResourceInitializer),
        (LocalInitializer::ResourceNew, Unsupported::ResourceCreation),
        (LocalInitializer::ResourceRep, Unsupported::ResourceRepresentation),
        (LocalInitializer::ResourceDrop, Unsupported::ResourceDropping),
        (LocalInitializer::ResourceDropAsync, Unsupported::ResourceDropping),
        (LocalInitializer::ComponentSynthetic, Unsupported::SyntheticComponent),
        (LocalInitializer::AliasExportTable, Unsupported::TableExport),
        (LocalInitializer::AliasExportGlobal, Unsupported::GlobalExport),
        (LocalInitializer::AliasModule, Unsupported::ModuleAlias),
        (LocalInitializer::AliasComponent, Unsupported::ComponentAlias),
        (LocalInitializer::Import("x", ImportType::Other), Unsupported::ImportKind),
        (LocalInitializer::Export("m", ComponentItem::Module(0)), Unsupported::ExportKind),
    ];
    let memory = LocalInitializer::AliasExportMemory;
    let mut frame = ComponentFrame::new(Vec::new());
    for (init, err) in cases.iter() {
        match initializer(&mut frame, init) {
            Err(e) => assert_eq!(format!("{:?}", e), format!("{:?}", err)),
            Ok(_) => panic!("expected an error"),
        }
    }
    assert!(frame.funcs.is_empty() && frame.modules.is_empty() && frame.component_instances.is_empty());
    assert!(matches!(initializer(&mut frame, &memory), Ok(InitializerWork::Done)));
}

#[test]
fn imports_come_from_arguments_or_the_host() {
    let from_arg = LocalInitializer::Import("dep", ImportType::Other);
    let from_host = LocalInitializer::Import("miden:base/core@1.0.0", ImportType::Instance(5));
    let alias = LocalInitializer::AliasComponentExport(0, "get");
    let args = vec![("dep", ComponentItemDef::Module(ModuleDef::Static(7)))];
    let mut frame = ComponentFrame::new(args);
    assert!(matches!(initializer(&mut frame, &from_arg), Ok(InitializerWork::Done)));
    assert!(matches!(frame.modules[0], ModuleDef::Static(7)));
    match initializer(&mut frame, &from_host) {
        Ok(InitializerWork::ImportInstance { name, ty }) => {
            assert_eq!(name, "miden:base/core@1.0.0");
            assert_eq!(ty, 5);
            component_import(&mut frame, name, TypeDef::ComponentInstance(12));
        }
        _ => panic!("expected an instance import"),
    }
    match &frame.component_instances[0] {
        ComponentInstanceDef::Import(i) => {
            assert_eq!(i.name, "miden:base/core@1.0.0");
            assert_eq!(i.ty, 12);
        }
        _ => panic!("expected an import"),
    }
    match initializer(&mut frame, &alias) {
        Ok(InitializerWork::AliasImportExport { instance, import, name }) => {
            assert_eq!(instance, 0);
            assert_eq!(import.ty, 12);
            alias_component_export(&mut frame, name, TypeDef::ComponentFunc(3), instance);
        }
        _ => panic!("expected an alias"),
    }
    assert!(matches!(frame.component_funcs[0], ComponentFuncDef::Import(0, "get")));
}

#[test]
fn module_instantiation_and_its_imports() {
    let entities = [("add", EntityIndex::Function(0)), ("sub", EntityIndex::Function(1))];
    let args = [("miden:calc/ops@1.0.0", 0u32), ("intrinsics::mem", 0u32)];
    let inits = [
        LocalInitializer::Lower(CanonLower { func: 0, lower_ty: 10 }),
        LocalInitializer::Lower(CanonLower { func: 1, lower_ty: 11 }),
        LocalInitializer::ModuleSynthetic(&entities),
        LocalInitializer::ModuleStatic(0),
    ];
    let inst = LocalInitializer::ModuleInstantiate(0, &args);
    let mut frame = ComponentFrame::new(Vec::new());
    for init in inits.iter() {
        assert!(matches!(initializer(&mut frame, init), Ok(InitializerWork::Done)));
    }
    match initializer(&mut frame, &inst) {
        Ok(InitializerWork::InstantiateModule { static_module, args }) => {
            assert_eq!(static_module, 0);
            let imports = module_import_args(&frame, args, &[false, true]).unwrap();
            assert_eq!(imports.len(), 2);
            assert_eq!(imports[0].lower.lower_ty, 10);
            assert_eq!(imports[1].lower.lower_ty, 11);
            match (&imports[1].path.path[0], &imports[1].path.path[1]) {
                (SymbolNameComponent::Component(m), SymbolNameComponent::Leaf(f)) => {
                    assert_eq!(m, "miden:calc/ops@1.0.0");
                    assert_eq!(f, "sub");
                }
                _ => panic!("unexpected path"),
            }
        }
        _ => panic!("expected a module instantiation"),
    }
    assert_eq!(frame.module_instances.len(), 2);
    // an instantiated module instance as an argument is refused
    let bad = [("m", 1u32)];
    assert!(matches!(module_import_args(&frame, &bad, &[false]), Err(Unsupported::InstantiatedModuleArgument)));
}

#[test]
fn nested_instances_export_their_lifted_functions() {
    let exports = vec![("f", ComponentItem::Func(0)), ("t", ComponentItem::Type(TypeDef::Interface(0)))];
    let nested = vec![ParsedComponent { initializers: Vec::new(), exports }];
    let vars = ClosedOverVars { modules: Vec::new(), components: Vec::new() };
    let def = LocalInitializer::ComponentStatic(0, vars);
    let no_args = [];
    let instantiation = ComponentInstantiation { component: 0, args: &no_args, ty: 0 };
    let init = LocalInitializer::ComponentInstantiate(instantiation);
    let mut frame = ComponentFrame::new(Vec::new());
    assert!(matches!(initializer(&mut frame, &def), Ok(InitializerWork::Done)));
    let (inst, static_component) = match initializer(&mut frame, &init) {
        Ok(InitializerWork::InstantiateComponent { instantiation, static_component, args }) => {
            assert!(args.is_empty());
            (instantiation, static_component)
        }
        _ => panic!("expected a component instantiation"),
    };
    assert_eq!(static_component, 0);
    let mut nested_frame = ComponentFrame::new(Vec::new());
    nested_frame.component_funcs.push(ComponentFuncDef::Lifted(CanonLift { ty: 4, func: 0 }));
    let idx = finish_component_instantiation(&mut frame, inst, nested_frame);
    assert_eq!(idx, 0);
    let lifts = component_export(&mut frame, idx, &nested);
    assert_eq!(lifts.len(), 1);
    assert_eq!(lifts[0].name, "f");
    assert_eq!(lifts[0].lift.ty, 4);
    assert!(matches!(frame.component_instances[1], ComponentInstanceDef::Export));
}

#[test]
fn closures_capture_local_and_outer_definitions() {
    let m = LocalInitializer::ModuleStatic(3);
    let c1 = LocalInitializer::ComponentStatic(1, ClosedOverVars { modules: vec![ClosedOverModule::Local(0)], components: Vec::new() });
    let c2 = LocalInitializer::ComponentStatic(2, ClosedOverVars { modules: Vec::new(), components: vec![ClosedOverComponent::Local(0)] });
    let mut frame = ComponentFrame::new(Vec::new());
    assert!(initializer(&mut frame, &m).is_ok());
    assert!(initializer(&mut frame, &c1).is_ok());
    assert!(initializer(&mut frame, &c2).is_ok());
    assert_eq!(frame.components.len(), 2);
    assert!(matches!(frame.components[0].closure.modules[0], ModuleDef::Static(3)));
    assert_eq!(frame.components[1].closure.components[0].index, 1);
}

#[test]
fn lifted_functions_resolve_to_module_exports() {
    let no_args = [];
    let inits = [
        LocalInitializer::ModuleStatic(2),
        LocalInitializer::ModuleInstantiate(0, &no_args),
        LocalInitializer::AliasExportFunc(0, "cabi_run"),
    ];
    let mut frame = ComponentFrame::new(Vec::new());
    for init in inits.iter() {
        assert!(initializer(&mut frame, init).is_ok());
    }
    let module = |name: &str| ParsedModule { name: name.to_string(), exports: Vec::new(), func_names: Vec::new() };
    let counter = ParsedModule {
        name: "counter".to_string(),
        exports: vec![("memory".to_string(), EntityIndex::Memory(0)), ("cabi_run".to_string(), EntityIndex::Function(1))],
        func_names: vec!["init".to_string(), "run_impl".to_string()],
    };
    let modules = vec![module("a"), module("b"), counter];
    let path = core_module_export_func_path(&frame, &modules, &CanonLift { ty: 0, func: 0 });
    assert_eq!(path.path.len(), 2);
    assert!(matches!(&path.path[0], SymbolNameComponent::Component(m) if m == "counter"));
    assert!(matches!(&path.path[1], SymbolNameComponent::Leaf(f) if f == "run_impl"));
    assert!(matches!(frame.module_instances[0], ModuleInstanceDef::Instantiated { module_idx: 0, .. }));
}

#[test]
fn the_metadata_section_of_the_one_module_that_has_it() {
    let sections = vec![None, Some(vec![1u8, 2, 3]), None];
    assert_eq!(account_component_metadata(&sections), vec![1, 2, 3]);
}

#[test]
fn the_first_exported_instance_names_the_component() {
    let exports = [
        ("f", ComponentItem::Func(0)),
        ("miden:counter/counter@0.1.0", ComponentItem::ComponentInstance(0)),
        ("other", ComponentItem::ComponentInstance(1)),
    ];
    assert_eq!(root_component_instance_name(&exports), "miden:counter/counter@0.1.0");
}

#[test]
fn core_modules_and_components_are_told_apart() {
    let core = [0x00u8, 0x61, 0x73, 0x6d, 0x01, 0x00, 0x00, 0x00];
    let component = [0x00u8, 0x61, 0x73, 0x6d, 0x0d, 0x00, 0x01, 0x00];
    assert!(is_core_module(&core));
    assert!(!is_core_module(&component));
}
