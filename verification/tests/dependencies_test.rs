use miden_compiler::dependencies::{
    has_masp_extension, BuildOutput, DependencyError, DependencyProbe, DependencyResolver, StepAction,
};

fn probe(name: &str, path: &str, is_file: bool, is_dir: bool, has_manifest: bool) -> DependencyProbe {
    DependencyProbe { name: name.to_string(), path: path.to_string(), is_file, is_dir, has_manifest }
}

#[test]
fn masp_extension() {
    assert!(has_masp_extension("/deps/lib.masp"));
    assert!(has_masp_extension("lib.tar.masp"));
    assert!(!has_masp_extension("/deps/lib.masm"));
    assert!(!has_masp_extension("/deps/.masp"));
    assert!(!has_masp_extension("/deps/masp"));
}

#[test]
fn a_package_file_is_linked_once() {
    let mut r = DependencyResolver::new();
    let dep = probe("a", "/x/a.masp", true, false, false);
    assert_eq!(r.step(&dep).unwrap(), StepAction::Done);
    assert_eq!(r.step(&dep).unwrap(), StepAction::Done);
    let other = probe("b", "/x/a.masp", true, false, false);
    assert_eq!(r.step(&other).unwrap(), StepAction::Done);
    assert_eq!(r.into_library_paths(), vec!["/x/a.masp".to_string()]);
}

#[test]
fn a_project_directory_is_built() {
    let mut r = DependencyResolver::new();
    let dep = probe("lib", "/x/lib", false, true, true);
    assert_eq!(r.step(&dep).unwrap(), StepAction::Build);
    r.finish_build(&dep, Some(BuildOutput::Masm("/x/lib/target/lib.masp".to_string()))).unwrap();
    // the directory is now dealt with
    assert_eq!(r.step(&dep).unwrap(), StepAction::Done);
    assert_eq!(r.into_library_paths(), vec!["/x/lib/target/lib.masp".to_string()]);
}

#[test]
fn errors_name_the_dependency() {
    let mut r = DependencyResolver::new();
    match r.step(&probe("t", "/x/t.txt", true, false, false)) {
        Err(DependencyError::NotMaspFile(n, p)) => {
            assert_eq!(n, "t");
            assert_eq!(p, "/x/t.txt");
        }
        other => panic!("unexpected {:?}", other),
    }
    assert!(matches!(r.step(&probe("d", "/x/d", false, true, false)), Err(DependencyError::NoManifest(..))));
    assert!(matches!(r.step(&probe("m", "/x/m", false, false, false)), Err(DependencyError::Missing(..))));
    let dep = probe("w", "/x/w", false, true, true);
    assert!(matches!(r.finish_build(&dep, None), Err(DependencyError::NoBuildOutput(..))));
    assert!(matches!(
        r.finish_build(&dep, Some(BuildOutput::Wasm("/x/w.wasm".to_string()))),
        Err(DependencyError::WasmOutput(..))
    ));
    assert!(matches!(
        r.finish_build(&dep, Some(BuildOutput::Masm("/x/w.wasm".to_string()))),
        Err(DependencyError::ArtifactNotMasp(..))
    ));
    r.finish_build(&dep, Some(BuildOutput::Masm("/x/w.masp".to_string()))).unwrap();
    let dep2 = probe("w2", "/x/w2", false, true, true);
    assert!(matches!(
        r.finish_build(&dep2, Some(BuildOutput::Masm("/x/w.masp".to_string()))),
        Err(DependencyError::DuplicateArtifact(..))
    ));
    assert_eq!(r.into_library_paths(), vec!["/x/w.masp".to_string()]);
}
