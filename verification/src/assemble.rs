//! The assembly stage: the generated Miden Assembly is assembled into MAST
//! and packaged with a manifest of its exports and its dependencies.
use vstd::prelude::*;
use vstd::seq_lib::seq_to_set_distributes_over_add;

verus! {

/// A MAST digest (four field elements).
pub type Digest = (u64, u64, u64, u64);

/// A procedure of an assembled library module: its name and digest.
#[derive(Debug)]
pub struct ProcedureInfo {
    pub name: String,
    pub digest: Digest,
}

/// A module of an assembled library: its path and its procedures.
#[derive(Debug)]
pub struct ModuleInfo {
    pub path: String,
    pub procedures: Vec<ProcedureInfo>,
}

/// Assembled MAST: an executable program, or a library of modules.
#[derive(Debug)]
pub enum MastArtifact {
    Executable(Digest),
    Library(Vec<ModuleInfo>),
}

/// A library the package links against: its name and digest.
#[derive(Debug)]
pub struct Dependency {
    pub name: String,
    pub digest: Digest,
}

/// A procedure the package exports: module path, procedure name, digest.
#[derive(Debug)]
pub struct PackageExport {
    pub module: String,
    pub name: String,
    pub digest: Digest,
}

/// The manifest of a package.
#[derive(Debug)]
pub struct PackageManifest {
    /// The exported procedures, each once.
    pub exports: Vec<PackageExport>,
    pub dependencies: Vec<Dependency>,
}

/// A Miden package.
#[derive(Debug)]
pub struct Package {
    pub name: String,
    pub mast: MastArtifact,
    pub manifest: PackageManifest,
    pub account_component_metadata_bytes: Option<Vec<u8>>,
}

/// The output of code generation: the libraries linked against (their
/// digests, in the order of the session's link libraries), whether the
/// component has an entrypoint, and the account component metadata.
#[derive(Debug)]
pub struct CodegenOutput {
    pub link_library_digests: Vec<Digest>,
    pub has_entrypoint: bool,
    pub account_component_metadata_bytes: Option<Vec<u8>>,
}

/// What the compilation session says of the package: its name, the names of
/// the libraries to link, and whether assembly was requested.
#[derive(Debug)]
pub struct Session {
    pub name: String,
    pub link_library_names: Vec<String>,
    pub should_assemble: bool,
}

/// The artifact produced by the full compiler pipeline: the generated code,
/// or the assembled package when the assembler stage ran.
#[derive(Debug)]
pub enum Artifact {
    Lowered(CodegenOutput),
    Assembled(Package),
}

impl Artifact {
    /// The assembled package; only an assembled artifact has one.
    pub fn unwrap_mast(self) -> (r: Package)
        requires
            self is Assembled,
        ensures
            self matches Artifact::Assembled(p) && r == p,
    {
        match self {
            Artifact::Assembled(mast) => mast,
            Artifact::Lowered(_) => unreached(),
        }
    }
}

/// Optional bytes as plain values.
pub open spec fn bytes_view(b: Option<Vec<u8>>) -> Option<Seq<u8>> {
    match b {
        Some(v) => Some(v@),
        None => None,
    }
}

/// An export as plain values: module path, procedure name, digest.
pub type ExportView = (Seq<char>, Seq<char>, Digest);

/// Every procedure of every module of a library, as exports, in module
/// order then procedure order.
pub open spec fn library_exports(modules: Seq<ModuleInfo>) -> Seq<ExportView>
    decreases modules.len(),
{
    if modules.len() == 0 {
        Seq::empty()
    } else {
        library_exports(modules.drop_last()) + modules.last().procedures@.map_values(
            |p: ProcedureInfo| (modules.last().path@, p.name@, p.digest),
        )
    }
}

pub open spec fn export_view(e: PackageExport) -> ExportView {
    (e.module@, e.name@, e.digest)
}

/// The exports of a manifest as plain values.
pub open spec fn export_views(v: Seq<PackageExport>) -> Seq<ExportView> {
    v.map_values(|e: PackageExport| export_view(e))
}

/// Adds an export to the set of exports, unless it is there already.
fn insert_export(exports: &mut Vec<PackageExport>, e: PackageExport)
    requires
        export_views(old(exports)@).no_duplicates(),
    ensures
        export_views(final(exports)@).no_duplicates(),
        export_views(final(exports)@).to_set() == export_views(old(exports)@).to_set().insert(export_view(e)),
{
    let mut i: usize = 0;
    while i < exports.len()
        invariant
            i <= exports@.len(),
            export_views(exports@).no_duplicates(),
            forall|k: int| 0 <= k < i ==> export_view(#[trigger] exports@[k]) != export_view(e),
        decreases exports@.len() - i,
    {
        let x = &exports[i];
        if crate::text::str_eq(x.module.as_str(), e.module.as_str()) && crate::text::str_eq(x.name.as_str(), e.name.as_str())
            && x.digest.0 == e.digest.0 && x.digest.1 == e.digest.1 && x.digest.2 == e.digest.2 && x.digest.3 == e.digest.3 {
            assert(export_views(exports@)[i as int] == export_view(e));
            assert(export_views(exports@).to_set().contains(export_view(e)));
            assert(export_views(exports@).to_set().insert(export_view(e)) =~= export_views(exports@).to_set());
            return;
        }
        i = i + 1;
    }
    let ghost prev = export_views(exports@);
    assert(!prev.contains(export_view(e))) by {
        if prev.contains(export_view(e)) {
            let k = choose|k: int| 0 <= k < prev.len() && prev[k] == export_view(e);
            assert(export_view(exports@[k]) == export_view(e));
        }
    }
    exports.push(e);
    assert(export_views(exports@) =~= prev.push(export_view(e)));
    proof {
        prev.lemma_push_to_set_commute(export_view(e));
    }
    assert(export_views(exports@).no_duplicates()) by {
        assert forall|a: int, b: int| 0 <= a < export_views(exports@).len() && 0 <= b < export_views(exports@).len() && a != b
            implies export_views(exports@)[a] != export_views(exports@)[b] by {
            if a == prev.len() {
                assert(prev[b] == export_views(exports@)[b]);
            } else if b == prev.len() {
                assert(prev[a] == export_views(exports@)[a]);
            }
        }
    }
}

pub open spec fn dependency_view(d: Dependency) -> (Seq<char>, Digest) {
    (d.name@, d.digest)
}

/// The dependencies of a package: each link library's name paired with its
/// digest, as far as both lists go.
pub open spec fn spec_dependencies(names: Seq<String>, digests: Seq<Digest>) -> Seq<(Seq<char>, Digest)> {
    Seq::new(
        if names.len() < digests.len() { names.len() } else { digests.len() },
        |i: int| (names[i]@, digests[i]),
    )
}

/// Builds the package of assembled MAST: named after the session, depending
/// on the linked libraries, exporting every procedure of a library, and
/// carrying the account component metadata. A library must not have an
/// entrypoint.
pub fn build_package(mast: MastArtifact, outputs: &CodegenOutput, session: &Session) -> (r: Package)
    requires
        mast is Library ==> !outputs.has_entrypoint,
    ensures
        r.name@ == session.name@,
        r.mast == mast,
        r.manifest.dependencies@.map_values(|d: Dependency| dependency_view(d)) == spec_dependencies(
            session.link_library_names@,
            outputs.link_library_digests@,
        ),
        export_views(r.manifest.exports@).no_duplicates(),
        export_views(r.manifest.exports@).to_set() == match mast {
            MastArtifact::Library(modules) => library_exports(modules@).to_set(),
            MastArtifact::Executable(_) => Set::<ExportView>::empty(),
        },
        bytes_view(r.account_component_metadata_bytes) == bytes_view(outputs.account_component_metadata_bytes),
{
    let name = session.name.clone();
    let mut dependencies: Vec<Dependency> = Vec::new();
    let n = if session.link_library_names.len() < outputs.link_library_digests.len() {
        session.link_library_names.len()
    } else {
        outputs.link_library_digests.len()
    };
    let mut i: usize = 0;
    while i < n
        invariant
            n <= session.link_library_names@.len(),
            n <= outputs.link_library_digests@.len(),
            n == spec_dependencies(session.link_library_names@, outputs.link_library_digests@).len(),
            i <= n,
            dependencies@.map_values(|d: Dependency| dependency_view(d)) == spec_dependencies(
                session.link_library_names@,
                outputs.link_library_digests@,
            ).take(i as int),
        decreases n - i,
    {
        let ghost prev = dependencies@;
        let d = Dependency {
            name: session.link_library_names[i].clone(),
            digest: outputs.link_library_digests[i],
        };
        assert(dependency_view(d) == spec_dependencies(session.link_library_names@, outputs.link_library_digests@)[i as int]);
        dependencies.push(d);
        assert(dependencies@ == prev.push(d));
        assert(dependencies@.map_values(|d: Dependency| dependency_view(d)) =~= prev.map_values(|d: Dependency| dependency_view(d)).push(dependency_view(d)));
        i = i + 1;
        assert(dependencies@.map_values(|d: Dependency| dependency_view(d)) =~= spec_dependencies(
            session.link_library_names@,
            outputs.link_library_digests@,
        ).take(i as int));
    }
    assert(spec_dependencies(session.link_library_names@, outputs.link_library_digests@).take(n as int)
        =~= spec_dependencies(session.link_library_names@, outputs.link_library_digests@));
    let mut exports: Vec<PackageExport> = Vec::new();
    proof {
        assert(export_views(exports@) =~= Seq::<ExportView>::empty());
        assert(export_views(exports@).to_set() =~= Set::<ExportView>::empty());
    }
    if let MastArtifact::Library(modules) = &mast {
        let mut m: usize = 0;
        assert(library_exports(modules@.take(0)) =~= Seq::<ExportView>::empty());
        while m < modules.len()
            invariant
                m <= modules@.len(),
                export_views(exports@).no_duplicates(),
                export_views(exports@).to_set() == library_exports(modules@.take(m as int)).to_set(),
            decreases modules@.len() - m,
        {
            let module = &modules[m];
            let ghost before = library_exports(modules@.take(m as int));
            let ghost procs = module.procedures@.map_values(|p: ProcedureInfo| (module.path@, p.name@, p.digest));
            let mut j: usize = 0;
            proof {
                assert(procs.take(0) =~= Seq::<ExportView>::empty());
                seq_to_set_distributes_over_add(before, procs.take(0));
                assert(before + procs.take(0) =~= before);
            }
            while j < module.procedures.len()
                invariant
                    j <= module.procedures@.len(),
                    procs == module.procedures@.map_values(|p: ProcedureInfo| (module.path@, p.name@, p.digest)),
                    export_views(exports@).no_duplicates(),
                    export_views(exports@).to_set() == (before + procs.take(j as int)).to_set(),
                decreases module.procedures@.len() - j,
            {
                let proc_info = &module.procedures[j];
                let e = PackageExport {
                    module: module.path.clone(),
                    name: proc_info.name.clone(),
                    digest: proc_info.digest,
                };
                assert(export_view(e) == procs[j as int]);
                proof {
                    assert((before + procs.take(j + 1)) =~= (before + procs.take(j as int)).push(procs[j as int]));
                    (before + procs.take(j as int)).lemma_push_to_set_commute(procs[j as int]);
                }
                insert_export(&mut exports, e);
                j = j + 1;
            }
            proof {
                assert(procs.take(module.procedures@.len() as int) =~= procs);
                assert(modules@.take(m + 1).drop_last() =~= modules@.take(m as int));
                assert(library_exports(modules@.take(m + 1)) == before + procs);
                seq_to_set_distributes_over_add(before, procs);
                seq_to_set_distributes_over_add(library_exports(modules@.take(m as int)), procs);
            }
            m = m + 1;
        }
        assert(modules@.take(modules@.len() as int) =~= modules@);
    }
    let account_component_metadata_bytes = match &outputs.account_component_metadata_bytes {
        Some(b) => Some(b.clone()),
        None => None,
    };
    Package {
        name,
        mast,
        manifest: PackageManifest { exports, dependencies },
        account_component_metadata_bytes,
    }
}

/// Perform assembly of the generated Miden Assembly, producing MAST.
pub struct AssembleStage;

impl AssembleStage {
    /// Runs the stage on the generated code: when the session asks for
    /// assembly, packages the MAST that assembling `input` produced;
    /// otherwise hands the generated code on.
    pub fn run(&mut self, input: CodegenOutput, session: &Session, assembled: Option<MastArtifact>) -> (r: Artifact)
        requires
            session.should_assemble == assembled is Some,
            assembled matches Some(MastArtifact::Library(_)) ==> !input.has_entrypoint,
        ensures
            session.should_assemble ==> (r matches Artifact::Assembled(p) && p.mast == assembled->Some_0
                && p.name@ == session.name@
                && p.manifest.dependencies@.map_values(|d: Dependency| dependency_view(d)) == spec_dependencies(
                    session.link_library_names@,
                    input.link_library_digests@,
                )
                && export_views(p.manifest.exports@).no_duplicates()
                && export_views(p.manifest.exports@).to_set() == match assembled->Some_0 {
                    MastArtifact::Library(modules) => library_exports(modules@).to_set(),
                    MastArtifact::Executable(_) => Set::<ExportView>::empty(),
                }
                && bytes_view(p.account_component_metadata_bytes) == bytes_view(input.account_component_metadata_bytes)),
            !session.should_assemble ==> r == Artifact::Lowered(input),
    {
        match assembled {
            Some(mast) => Artifact::Assembled(build_package(mast, &input, session)),
            None => Artifact::Lowered(input),
        }
    }
}

/// Dependency `i` pairs link library name `i` with link library digest
/// `i`: the dependencies of two lists of the same length extended by one
/// name and one digest are theirs followed by that pair, and empty lists
/// have none.
pub proof fn lemma_dependencies_pair_up(names: Seq<String>, digests: Seq<Digest>, name: String, digest: Digest)
    requires
        names.len() == digests.len(),
    ensures
        spec_dependencies(names.push(name), digests.push(digest)) == spec_dependencies(names, digests).push((name@, digest)),
        spec_dependencies(Seq::empty(), digests).len() == 0,
        spec_dependencies(names, Seq::empty()).len() == 0,
        forall|i: int| 0 <= i < names.len() ==> #[trigger] spec_dependencies(names, digests)[i] == (names[i]@, digests[i]),
{
    assert(spec_dependencies(names.push(name), digests.push(digest)) =~= spec_dependencies(names, digests).push((name@, digest)));
}

} // verus!
