//! Resolution of the Miden dependencies that packages declare in
//! `[package.metadata.miden.dependencies]`.
//!
//! A dependency is either a pre-compiled Miden package (a `.masp` file) or a
//! directory holding a Cargo project, which is built as a library whose
//! `.masp` artifact is then linked. The resolver keeps the list of package
//! paths to link (in the order they were found, each once) and the set of
//! dependency paths already dealt with; the filesystem and the builds are the
//! caller's, who hands their results to `step` and `finish_build`.
use vstd::prelude::*;

verus! {

/// The extension of a path, as `std::path::Path::extension` gives it.
pub uninterp spec fn path_extension(path: Seq<char>) -> Option<Seq<char>>;

/// `std::path::Path::extension`: the extension of the file name of `path`
/// (the part after its last dot, unless that dot begins the name), if any.
#[verifier::external_body]
fn extension_of(path: &str) -> (r: Option<String>)
    ensures
        match path_extension(path@) {
            Some(e) => r matches Some(re) && re@ == e,
            None => r is None,
        },
{
    std::path::Path::new(path).extension().map(|e| e.to_string_lossy().into_owned())
}

/// The path names a Miden package file.
pub open spec fn is_masp(path: Seq<char>) -> bool {
    path_extension(path) == Some("masp"@)
}

/// Whether the path names a Miden package file (its extension is `masp`).
pub fn has_masp_extension(path: &str) -> (r: bool)
    ensures
        r == is_masp(path@),
{
    proof {
        reveal_strlit("masp");
    }
    match extension_of(path) {
        Some(ext) => crate::text::str_eq(ext.as_str(), "masp"),
        None => false,
    }
}

/// What the filesystem says of a dependency's resolved (absolute) path.
#[derive(Debug)]
pub struct DependencyProbe {
    /// The dependency's name.
    pub name: String,
    /// The dependency's path, resolved against the declaring manifest and
    /// canonicalized.
    pub path: String,
    /// The path is a file.
    pub is_file: bool,
    /// The path is a directory.
    pub is_dir: bool,
    /// The directory holds a `Cargo.toml` file.
    pub has_manifest: bool,
}

/// What a dependency project's build produced.
#[derive(Debug)]
pub enum BuildOutput {
    /// A Miden package at this path.
    Masm(String),
    /// A Wasm artifact at this path.
    Wasm(String),
}

/// Why dependency resolution failed; each error names the dependency and
/// the path concerned.
#[derive(Debug)]
pub enum DependencyError {
    /// The path is a file that is not a Miden package.
    NotMaspFile(String, String),
    /// The path is a directory without a `Cargo.toml`.
    NoManifest(String, String),
    /// The path is neither a file nor a directory.
    Missing(String, String),
    /// The build produced no output.
    NoBuildOutput(String, String),
    /// The build produced a Wasm artifact instead of a Miden package.
    WasmOutput(String, String),
    /// The build produced a package that is already linked.
    DuplicateArtifact(String, String),
    /// The build produced an artifact that is not a Miden package.
    ArtifactNotMasp(String, String),
}

/// What remains to do for a dependency after `step`.
#[derive(Debug, PartialEq, Eq, Structural)]
pub enum StepAction {
    /// Nothing.
    Done,
    /// Build the project in the dependency's directory as a Miden library,
    /// then hand the result to `finish_build`.
    Build,
}

/// The packages to link and the dependency paths dealt with.
pub struct DependencyResolver {
    library_paths: Vec<String>,
    processed: Vec<String>,
}

/// The resolver's state as plain values.
pub struct ResolverView {
    /// The packages to link, in the order they were found.
    pub library_paths: Seq<Seq<char>>,
    /// The dependency paths dealt with, in the order they were.
    pub processed: Seq<Seq<char>>,
}

impl View for DependencyResolver {
    type V = ResolverView;

    closed spec fn view(&self) -> ResolverView {
        ResolverView {
            library_paths: string_views(self.library_paths@),
            processed: string_views(self.processed@),
        }
    }
}

/// The resolver's invariant: each package is linked once and is a Miden
/// package file, and each dependency path is recorded once.
pub open spec fn resolver_inv(v: ResolverView) -> bool {
    &&& v.library_paths.no_duplicates()
    &&& forall|i: int| 0 <= i < v.library_paths.len() ==> is_masp(#[trigger] v.library_paths[i])
    &&& v.processed.no_duplicates()
}

/// The characters of each string.
pub open spec fn string_views(v: Seq<String>) -> Seq<Seq<char>> {
    v.map_values(|s: String| s@)
}

/// Whether `p` is among `v`.
fn contains(v: &Vec<String>, p: &str) -> (r: bool)
    ensures
        r == string_views(v@).contains(p@),
{
    let mut i: usize = 0;
    while i < v.len()
        invariant
            i <= v@.len(),
            forall|j: int| 0 <= j < i ==> v@[j]@ != p@,
        decreases v@.len() - i,
    {
        if crate::text::str_eq(v[i].as_str(), p) {
            assert(string_views(v@)[i as int] == p@);
            return true;
        }
        i = i + 1;
    }
    assert(!string_views(v@).contains(p@)) by {
        if string_views(v@).contains(p@) {
            let k = choose|k: int| 0 <= k < v@.len() && #[trigger] string_views(v@)[k] == p@;
            assert(v@[k]@ == p@);
        }
    }
    false
}

/// Appends `p` to `v`.
fn push_path(v: &mut Vec<String>, p: &str)
    ensures
        string_views(final(v)@) == string_views(old(v)@).push(p@),
{
    v.push(p.to_owned());
    assert(string_views(v@) =~= string_views(old(v)@).push(p@));
}

/// Adding an element that is not there keeps a sequence free of duplicates.
proof fn lemma_push_no_dup(s: Seq<Seq<char>>, x: Seq<char>)
    requires
        s.no_duplicates(),
        !s.contains(x),
    ensures
        s.push(x).no_duplicates(),
{
    assert forall|i: int, j: int| 0 <= i < s.push(x).len() && 0 <= j < s.push(x).len() && i != j implies s.push(x)[i] != s.push(x)[j] by {
        if i == s.len() {
            assert(s[j] == s.push(x)[j]);
        } else if j == s.len() {
            assert(s[i] == s.push(x)[i]);
        }
    }
}

/// The set of dependency paths after `p` is dealt with.
pub open spec fn mark(processed: Seq<Seq<char>>, p: Seq<char>) -> Seq<Seq<char>> {
    if processed.contains(p) {
        processed
    } else {
        processed.push(p)
    }
}

/// What `step` does: its result `r` and the resolver before and after.
pub open spec fn step_effect(old_v: ResolverView, new_v: ResolverView, dep: DependencyProbe, r: Result<StepAction, DependencyError>) -> bool {
    let p = dep.path@;
    if old_v.processed.contains(p) {
        r == Ok::<StepAction, DependencyError>(StepAction::Done) && new_v.processed == old_v.processed
            && new_v.library_paths == if !old_v.library_paths.contains(p) && dep.is_file && is_masp(p) {
                old_v.library_paths.push(p)
            } else {
                old_v.library_paths
            }
    } else if dep.is_file {
        if is_masp(p) {
            r == Ok::<StepAction, DependencyError>(StepAction::Done)
                && new_v.library_paths == (if old_v.library_paths.contains(p) { old_v.library_paths } else { old_v.library_paths.push(p) })
                && new_v.processed == old_v.processed.push(p)
        } else {
            r matches Err(DependencyError::NotMaspFile(n, q)) && n@ == dep.name@ && q@ == p && new_v == old_v
        }
    } else if dep.is_dir {
        if dep.has_manifest {
            r == Ok::<StepAction, DependencyError>(StepAction::Build) && new_v == old_v
        } else {
            r matches Err(DependencyError::NoManifest(n, q)) && n@ == dep.name@ && q@ == p && new_v == old_v
        }
    } else {
        r matches Err(DependencyError::Missing(n, q)) && n@ == dep.name@ && q@ == p && new_v == old_v
    }
}

/// What `finish_build` does: its result `r` and the resolver before and
/// after.
pub open spec fn finish_effect(old_v: ResolverView, new_v: ResolverView, dep: DependencyProbe, output: Option<BuildOutput>, r: Result<(), DependencyError>) -> bool {
    match output {
        None => r matches Err(DependencyError::NoBuildOutput(n, q)) && n@ == dep.name@ && q@ == dep.path@ && new_v == old_v,
        Some(BuildOutput::Wasm(a)) => r matches Err(DependencyError::WasmOutput(n, q)) && n@ == dep.name@ && q@ == a@ && new_v == old_v,
        Some(BuildOutput::Masm(a)) => if !is_masp(a@) {
            r matches Err(DependencyError::ArtifactNotMasp(n, q)) && n@ == dep.name@ && q@ == a@ && new_v == old_v
        } else if old_v.library_paths.contains(a@) {
            r matches Err(DependencyError::DuplicateArtifact(n, q)) && n@ == dep.name@ && q@ == a@ && new_v == old_v
        } else {
            r is Ok && new_v.library_paths == old_v.library_paths.push(a@)
                && new_v.processed == mark(old_v.processed, dep.path@)
        },
    }
}

impl DependencyResolver {
    /// No package to link, no dependency dealt with.
    pub fn new() -> (r: Self)
        ensures
            r@.library_paths.len() == 0,
            r@.processed.len() == 0,
            resolver_inv(r@),
    {
        let r = DependencyResolver { library_paths: Vec::new(), processed: Vec::new() };
        assert(r@.library_paths =~= Seq::<Seq<char>>::empty());
        assert(r@.processed =~= Seq::<Seq<char>>::empty());
        r
    }

    /// The packages to link, in the order they were found.
    pub fn into_library_paths(self) -> (r: Vec<String>)
        ensures
            string_views(r@) == self@.library_paths,
    {
        self.library_paths
    }

    fn mark_processed(&mut self, p: &str)
        requires
            string_views(old(self).processed@).no_duplicates(),
        ensures
            final(self)@.processed == mark(old(self)@.processed, p@),
            final(self)@.library_paths == old(self)@.library_paths,
            string_views(final(self).processed@).no_duplicates(),
    {
        if !contains(&self.processed, p) {
            proof {
                lemma_push_no_dup(string_views(self.processed@), p@);
            }
            push_path(&mut self.processed, p);
        }
    }

    /// Deals with one dependency, given what the filesystem says of its
    /// path. A path dealt with before adds its package if it is a package
    /// file not yet linked; a package file is linked (once) and recorded; a
    /// directory with a manifest asks for a build; anything else is an
    /// error.
    pub fn step(&mut self, dep: &DependencyProbe) -> (r: Result<StepAction, DependencyError>)
        requires
            resolver_inv(old(self)@),
        ensures
            resolver_inv(final(self)@),
            step_effect(old(self)@, final(self)@, *dep, r),
    {
        let p = dep.path.as_str();
        if contains(&self.processed, p) {
            if !contains(&self.library_paths, p) && dep.is_file && has_masp_extension(p) {
                proof {
                    lemma_push_no_dup(self@.library_paths, p@);
                }
                push_path(&mut self.library_paths, p);
            }
            return Ok(StepAction::Done);
        }
        if dep.is_file {
            if has_masp_extension(p) {
                if !contains(&self.library_paths, p) {
                    proof {
                        lemma_push_no_dup(self@.library_paths, p@);
                    }
                    push_path(&mut self.library_paths, p);
                }
                self.mark_processed(p);
                Ok(StepAction::Done)
            } else {
                Err(DependencyError::NotMaspFile(dep.name.clone(), dep.path.clone()))
            }
        } else if dep.is_dir {
            if dep.has_manifest {
                Ok(StepAction::Build)
            } else {
                Err(DependencyError::NoManifest(dep.name.clone(), dep.path.clone()))
            }
        } else {
            Err(DependencyError::Missing(dep.name.clone(), dep.path.clone()))
        }
    }

    /// Takes the output of building the dependency project at `dep.path`: a
    /// Miden package not yet linked is linked and the directory recorded;
    /// no output, a Wasm artifact, a package already linked, or an artifact
    /// that is not a package file are errors.
    pub fn finish_build(&mut self, dep: &DependencyProbe, output: Option<BuildOutput>) -> (r: Result<(), DependencyError>)
        requires
            resolver_inv(old(self)@),
        ensures
            resolver_inv(final(self)@),
            finish_effect(old(self)@, final(self)@, *dep, output, r),
    {
        match output {
            None => Err(DependencyError::NoBuildOutput(dep.name.clone(), dep.path.clone())),
            Some(BuildOutput::Wasm(artifact)) => Err(DependencyError::WasmOutput(dep.name.clone(), artifact)),
            Some(BuildOutput::Masm(artifact)) => {
                if !has_masp_extension(artifact.as_str()) {
                    return Err(DependencyError::ArtifactNotMasp(dep.name.clone(), artifact));
                }
                if contains(&self.library_paths, artifact.as_str()) {
                    return Err(DependencyError::DuplicateArtifact(dep.name.clone(), artifact));
                }
                proof {
                    lemma_push_no_dup(self@.library_paths, artifact@);
                }
                push_path(&mut self.library_paths, artifact.as_str());
                self.mark_processed(dep.path.as_str());
                Ok(())
            },
        }
    }
}

/// The arguments of the `cargo miden build` command that builds a
/// dependency project as a Miden library, in the parent's release or debug
/// profile.
pub fn dependency_build_args(manifest_path: &str, release: bool) -> (r: Vec<String>)
    ensures
        r@.map_values(|s: String| s@) == seq!["cargo"@, "miden"@, "build"@, "--manifest-path"@, manifest_path@]
            + (if release { seq!["--release"@] } else { Seq::<Seq<char>>::empty() }) + seq!["--lib"@],
{
    let mut args: Vec<String> = Vec::new();
    args.push("cargo".to_owned());
    args.push("miden".to_owned());
    args.push("build".to_owned());
    args.push("--manifest-path".to_owned());
    args.push(manifest_path.to_owned());
    if release {
        args.push("--release".to_owned());
    }
    args.push("--lib".to_owned());
    assert(args@.map_values(|s: String| s@) =~= seq!["cargo"@, "miden"@, "build"@, "--manifest-path"@, manifest_path@]
        + (if release { seq!["--release"@] } else { Seq::<Seq<char>>::empty() }) + seq!["--lib"@]);
    args
}

/// Dealing with a dependency again once it was dealt with changes nothing.
pub proof fn lemma_step_idempotent(
    v0: ResolverView,
    v1: ResolverView,
    v2: ResolverView,
    dep: DependencyProbe,
    r1: Result<StepAction, DependencyError>,
    r2: Result<StepAction, DependencyError>,
)
    requires
        resolver_inv(v0),
        step_effect(v0, v1, dep, r1),
        r1 == Ok::<StepAction, DependencyError>(StepAction::Done),
        step_effect(v1, v2, dep, r2),
    ensures
        r2 == Ok::<StepAction, DependencyError>(StepAction::Done),
        v2 == v1,
{
    let p = dep.path@;
    if !v0.processed.contains(p) {
        assert(v1.processed.last() == p);
        assert(v1.processed.contains(p));
        if !v0.library_paths.contains(p) {
            assert(v1.library_paths.last() == p);
        }
        assert(v1.library_paths.contains(p));
    } else if !v0.library_paths.contains(p) && dep.is_file && is_masp(p) {
        assert(v1.library_paths.last() == p);
        assert(v1.library_paths.contains(p));
    }
}

/// A dependency project that was built is not built again: dealing with its
/// directory afterwards changes nothing.
pub proof fn lemma_built_not_rebuilt(
    v0: ResolverView,
    v1: ResolverView,
    v2: ResolverView,
    dep: DependencyProbe,
    output: Option<BuildOutput>,
    r1: Result<(), DependencyError>,
    r2: Result<StepAction, DependencyError>,
)
    requires
        finish_effect(v0, v1, dep, output, r1),
        r1 is Ok,
        !dep.is_file,
        step_effect(v1, v2, dep, r2),
    ensures
        r2 == Ok::<StepAction, DependencyError>(StepAction::Done),
        v2 == v1,
{
    let p = dep.path@;
    if !v0.processed.contains(p) {
        assert(v1.processed.last() == p);
    }
    assert(v1.processed.contains(p));
}

/// One operation of the resolver takes it from `a` to `b`: a `step` or a
/// `finish_build`, whatever its dependency, build output and result.
pub open spec fn resolver_move(a: ResolverView, b: ResolverView) -> bool {
    ||| exists|dep: DependencyProbe, r: Result<StepAction, DependencyError>| #[trigger] step_effect(a, b, dep, r)
    ||| exists|dep: DependencyProbe, out: Option<BuildOutput>, r: Result<(), DependencyError>|
        #[trigger] finish_effect(a, b, dep, out, r)
}

/// A sequence is a prefix of itself with one more element.
proof fn lemma_prefix_push(s: Seq<Seq<char>>, x: Seq<char>)
    ensures
        s.is_prefix_of(s.push(x)),
{
    assert(s =~= s.push(x).subrange(0, s.len() as int));
}

/// Being a prefix is transitive.
proof fn lemma_prefix_trans(a: Seq<Seq<char>>, b: Seq<Seq<char>>, c: Seq<Seq<char>>)
    requires
        a.is_prefix_of(b),
        b.is_prefix_of(c),
    ensures
        a.is_prefix_of(c),
{
    assert(a =~= c.subrange(0, a.len() as int)) by {
        assert forall|k: int| 0 <= k < a.len() implies a[k] == c[k] by {
            assert(a[k] == b.subrange(0, a.len() as int)[k]);
            assert(b[k] == c.subrange(0, b.len() as int)[k]);
        }
    }
}

/// One operation keeps the resolver's invariant, and the packages to link
/// and the paths dealt with only grow.
proof fn lemma_move(a: ResolverView, b: ResolverView)
    requires
        resolver_inv(a),
        resolver_move(a, b),
    ensures
        resolver_inv(b),
        a.library_paths.is_prefix_of(b.library_paths),
        a.processed.is_prefix_of(b.processed),
{
    assert(a.library_paths.is_prefix_of(a.library_paths)) by {
        assert(a.library_paths =~= a.library_paths.subrange(0, a.library_paths.len() as int));
    }
    assert(a.processed.is_prefix_of(a.processed)) by {
        assert(a.processed =~= a.processed.subrange(0, a.processed.len() as int));
    }
    if exists|dep: DependencyProbe, r: Result<StepAction, DependencyError>| #[trigger] step_effect(a, b, dep, r) {
        let (dep, r) = choose|dep: DependencyProbe, r: Result<StepAction, DependencyError>| #[trigger] step_effect(a, b, dep, r);
        let p = dep.path@;
        if b.library_paths != a.library_paths {
            assert(b.library_paths == a.library_paths.push(p));
            assert(!a.library_paths.contains(p) && is_masp(p));
            lemma_push_no_dup(a.library_paths, p);
            lemma_prefix_push(a.library_paths, p);
        }
        if b.processed != a.processed {
            assert(b.processed == a.processed.push(p));
            lemma_push_no_dup(a.processed, p);
            lemma_prefix_push(a.processed, p);
        }
    } else {
        let (dep, out, r) = choose|dep: DependencyProbe, out: Option<BuildOutput>, r: Result<(), DependencyError>|
            #[trigger] finish_effect(a, b, dep, out, r);
        if b.library_paths != a.library_paths {
            let art = out->Some_0->Masm_0@;
            assert(b.library_paths == a.library_paths.push(art));
            lemma_push_no_dup(a.library_paths, art);
            lemma_prefix_push(a.library_paths, art);
            let p = dep.path@;
            if !a.processed.contains(p) {
                lemma_push_no_dup(a.processed, p);
                lemma_prefix_push(a.processed, p);
            }
        }
    }
}

/// Over any run of the resolver from a state that keeps its invariant, the
/// invariant holds at the end, and the packages to link and the dependency
/// paths dealt with only grow: whatever is linked at some point of the run
/// is linked at its end, each package once and each a `.masp` file.
pub proof fn lemma_run_only_grows(vs: Seq<ResolverView>)
    requires
        vs.len() > 0,
        resolver_inv(vs[0]),
        forall|i: int| 0 <= i < vs.len() - 1 ==> #[trigger] resolver_move(vs[i], vs[i + 1]),
    ensures
        resolver_inv(vs.last()),
        forall|i: int| 0 <= i < vs.len() ==> (#[trigger] vs[i]).library_paths.is_prefix_of(vs.last().library_paths)
            && vs[i].processed.is_prefix_of(vs.last().processed),
    decreases vs.len(),
{
    let last = vs.last();
    if vs.len() == 1 {
        assert(last.library_paths =~= last.library_paths.subrange(0, last.library_paths.len() as int));
        assert(last.processed =~= last.processed.subrange(0, last.processed.len() as int));
    } else {
        let init = vs.drop_last();
        assert forall|i: int| 0 <= i < init.len() - 1 implies #[trigger] resolver_move(init[i], init[i + 1]) by {
            assert(resolver_move(vs[i], vs[i + 1]));
        }
        lemma_run_only_grows(init);
        let prev = init.last();
        let k = vs.len() - 2;
        assert(prev == vs[k]);
        assert(resolver_move(vs[k], vs[k + 1]));
        assert(vs[k + 1] == last);
        lemma_move(prev, last);
        assert forall|i: int| 0 <= i < vs.len() implies (#[trigger] vs[i]).library_paths.is_prefix_of(last.library_paths)
            && vs[i].processed.is_prefix_of(last.processed) by {
            if i < vs.len() - 1 {
                assert(vs[i] == init[i]);
                lemma_prefix_trans(vs[i].library_paths, prev.library_paths, last.library_paths);
                lemma_prefix_trans(vs[i].processed, prev.processed, last.processed);
            } else {
                assert(last.library_paths =~= last.library_paths.subrange(0, last.library_paths.len() as int));
                assert(last.processed =~= last.processed.subrange(0, last.processed.len() as int));
            }
        }
    }
}

/// A built `.masp` artifact is refused as a duplicate exactly when it is
/// already among the packages to link; otherwise it is appended to them
/// and the build is finished without error.
pub proof fn lemma_artifact_linked_unless_present(
    v0: ResolverView,
    v1: ResolverView,
    dep: DependencyProbe,
    artifact: String,
    r: Result<(), DependencyError>,
)
    requires
        finish_effect(v0, v1, dep, Some(BuildOutput::Masm(artifact)), r),
        is_masp(artifact@),
    ensures
        r is Ok <==> !v0.library_paths.contains(artifact@),
        r matches Err(DependencyError::DuplicateArtifact(_, a)) <==> v0.library_paths.contains(artifact@),
        r is Ok ==> v1.library_paths == v0.library_paths.push(artifact@),
        r is Err ==> v1 == v0,
{
}

} // verus!
