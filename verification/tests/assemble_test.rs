use miden_compiler::assemble::{
    build_package, Artifact, AssembleStage, CodegenOutput, MastArtifact, ModuleInfo, ProcedureInfo, Session,
};

fn session(assemble: bool) -> Session {
    Session {
        name: "counter".to_string(),
        link_library_names: vec!["std".to_string(), "base".to_string(), "extra".to_string()],
        should_assemble: assemble,
    }
}

fn outputs() -> CodegenOutput {
    CodegenOutput {
        link_library_digests: vec![(1, 1, 1, 1), (2, 2, 2, 2)],
        has_entrypoint: false,
        account_component_metadata_bytes: Some(vec![9, 9]),
    }
}

fn library() -> MastArtifact {
    MastArtifact::Library(vec![
        ModuleInfo {
            path: "counter::a".to_string(),
            procedures: vec![
                ProcedureInfo { name: "get".to_string(), digest: (5, 0, 0, 0) },
                ProcedureInfo { name: "set".to_string(), digest: (6, 0, 0, 0) },
            ],
        },
        ModuleInfo { path: "counter::b".to_string(), procedures: vec![ProcedureInfo { name: "run".to_string(), digest: (7, 0, 0, 0) }] },
    ])
}

#[test]
fn a_library_package_exports_all_its_procedures() {
    let p = build_package(library(), &outputs(), &session(true));
    assert_eq!(p.name, "counter");
    let exports: Vec<(String, String)> = p.manifest.exports.iter().map(|e| (e.module.clone(), e.name.clone())).collect();
    assert_eq!(
        exports,
        vec![
            ("counter::a".to_string(), "get".to_string()),
            ("counter::a".to_string(), "set".to_string()),
            ("counter::b".to_string(), "run".to_string()),
        ]
    );
    assert_eq!(p.manifest.exports[2].digest, (7, 0, 0, 0));
    // names and digests are paired as far as both go
    assert_eq!(p.manifest.dependencies.len(), 2);
    assert_eq!(p.manifest.dependencies[1].name, "base");
    assert_eq!(p.manifest.dependencies[1].digest, (2, 2, 2, 2));
    assert_eq!(p.account_component_metadata_bytes, Some(vec![9, 9]));
}

#[test]
fn an_executable_package_exports_nothing() {
    let mut out = outputs();
    out.has_entrypoint = true;
    let p = build_package(MastArtifact::Executable((1, 2, 3, 4)), &out, &session(true));
    assert!(p.manifest.exports.is_empty());
}

#[test]
fn the_stage_assembles_only_when_asked() {
    let mut stage = AssembleStage;
    let a = stage.run(outputs(), &session(false), None);
    assert!(matches!(a, Artifact::Lowered(_)));
    let a = stage.run(outputs(), &session(true), Some(library()));
    let p = a.unwrap_mast();
    assert_eq!(p.name, "counter");
}

#[test]
fn an_export_listed_twice_is_exported_once() {
    let mast = MastArtifact::Library(vec![
        ModuleInfo {
            path: "m".to_string(),
            procedures: vec![
                ProcedureInfo { name: "f".to_string(), digest: (1, 0, 0, 0) },
                ProcedureInfo { name: "f".to_string(), digest: (1, 0, 0, 0) },
                ProcedureInfo { name: "f".to_string(), digest: (2, 0, 0, 0) },
            ],
        },
    ]);
    let p = build_package(mast, &outputs(), &session(true));
    assert_eq!(p.manifest.exports.len(), 2);
    assert_eq!(p.manifest.exports[0].digest, (1, 0, 0, 0));
    assert_eq!(p.manifest.exports[1].digest, (2, 0, 0, 0));
}
