//! The decisions of one import run.
//!
//! For each requested module name the run looks for the module's generated
//! top-level file and generated directory, and at the target crate
//! directory. A missing file or directory aborts the whole run; a target
//! crate already on disk makes the module a skip; otherwise the module's
//! crate is created and its name recorded, in request order. After the loop,
//! a non-empty new-crate list drives the re-export suggestions and the two
//! manifest updates; an empty one drives nothing.

use vstd::prelude::*;
use crate::content::lib_entry_of;
use crate::content::lib_entry_for;
use crate::content::with_dep_block;
use crate::content::append_dep_block;
use crate::copier::DirTree;
use crate::copier::copy_tree;
use crate::copier::same_tree;
use crate::manifest::DepManifest;
use crate::manifest::WorkspaceManifest;
use crate::manifest::clone_bytes;
use crate::manifest::member_paths_of;
use crate::manifest::with_deps;
use crate::names::crate_name_of;
use crate::names::crate_name_for;
use crate::names::reexport_lines_of;
use crate::names::reexport_lines_for;

verus! {

/// What the run found on disk for one requested module name.
pub struct ModuleFacts {
    /// The requested module name.
    pub name: Vec<u8>,
    /// Whether the module's generated top-level file exists under the
    /// generator output's source root.
    pub file_exists: bool,
    /// Whether the module's generated directory exists under that root.
    pub dir_exists: bool,
    /// Whether the target crate directory already exists.
    pub crate_exists: bool,
}

/// The step the run takes for one module.
#[derive(PartialEq, Eq, Structural, Clone, Copy, Debug)]
pub enum ModuleStep {
    /// The generated top-level file is missing: the run aborts.
    AbortMissingFile,
    /// The generated directory is missing: the run aborts.
    AbortMissingDir,
    /// The target crate already exists: the module is skipped.
    Skip,
    /// The crate is scaffolded, populated, and recorded as new.
    Create,
}

/// The step owed to one module's facts.
pub open spec fn step_of(f: ModuleFacts) -> ModuleStep {
    if !f.file_exists {
        ModuleStep::AbortMissingFile
    } else if !f.dir_exists {
        ModuleStep::AbortMissingDir
    } else if f.crate_exists {
        ModuleStep::Skip
    } else {
        ModuleStep::Create
    }
}

/// Decide the step for one module.
pub fn decide_module(f: &ModuleFacts) -> (s: ModuleStep)
    ensures
        s == step_of(*f),
{
    if !f.file_exists {
        ModuleStep::AbortMissingFile
    } else if !f.dir_exists {
        ModuleStep::AbortMissingDir
    } else if f.crate_exists {
        ModuleStep::Skip
    } else {
        ModuleStep::Create
    }
}

/// Whether both generated inputs of a module are present.
pub open spec fn module_ok(f: ModuleFacts) -> bool {
    f.file_exists && f.dir_exists
}

/// Whether every requested module's generated inputs are present.
pub open spec fn all_ok(s: Seq<ModuleFacts>) -> bool {
    forall|i: int| 0 <= i < s.len() ==> module_ok(#[trigger] s[i])
}

/// The crate names of the modules that will be freshly created, in request
/// order: one per module whose target crate does not exist yet.
pub open spec fn new_crate_names(s: Seq<ModuleFacts>) -> Seq<Seq<u8>>
    decreases s.len(),
{
    if s.len() == 0 {
        Seq::empty()
    } else {
        let rest = new_crate_names(s.subrange(1, s.len() as int));
        if s[0].crate_exists {
            rest
        } else {
            seq![crate_name_of(s[0].name@)] + rest
        }
    }
}

/// Extending the requests by one module extends the new-crate list by that
/// module's crate name exactly when its target crate does not exist.
proof fn lemma_new_crate_names_snoc(s: Seq<ModuleFacts>, f: ModuleFacts)
    ensures
        new_crate_names(s.push(f)) == (if f.crate_exists {
            new_crate_names(s)
        } else {
            new_crate_names(s).push(crate_name_of(f.name@))
        }),
    decreases s.len(),
{
    if s.len() == 0 {
        let e = s.push(f).subrange(1, 1);
        assert(e =~= Seq::<ModuleFacts>::empty());
        assert(s.push(f)[0] == f);
        assert(new_crate_names(e) == Seq::<Seq<u8>>::empty());
        assert(new_crate_names(s) == Seq::<Seq<u8>>::empty());
        if !f.crate_exists {
            assert(new_crate_names(s.push(f)) == seq![crate_name_of(f.name@)] + new_crate_names(
                e,
            ));
            assert(seq![crate_name_of(f.name@)] + Seq::<Seq<u8>>::empty() =~= Seq::<
                Seq<u8>,
            >::empty().push(crate_name_of(f.name@)));
        }
    } else {
        assert(s.push(f)[0] == s[0]);
        assert(s.push(f).subrange(1, s.len() as int + 1) =~= s.subrange(1, s.len() as int).push(
            f,
        ));
        lemma_new_crate_names_snoc(s.subrange(1, s.len() as int), f);
        if !f.crate_exists && !s[0].crate_exists {
            assert(seq![crate_name_of(s[0].name@)] + new_crate_names(
                s.subrange(1, s.len() as int),
            ).push(crate_name_of(f.name@)) =~= (seq![crate_name_of(s[0].name@)]
                + new_crate_names(s.subrange(1, s.len() as int))).push(crate_name_of(f.name@)));
        }
    }
}

/// Every recorded new-crate name is the crate name of some requested module
/// whose target crate was absent.
pub proof fn lemma_new_crates_from_absent(s: Seq<ModuleFacts>)
    ensures
        forall|k: int|
            0 <= k < new_crate_names(s).len() ==> (exists|j: int|
                0 <= j < s.len() && !s[j].crate_exists && #[trigger] new_crate_names(s)[k]
                    == crate_name_of(s[j].name@)),
    decreases s.len(),
{
    if s.len() == 0 {
    } else {
        let tail = s.subrange(1, s.len() as int);
        lemma_new_crates_from_absent(tail);
        assert forall|k: int| 0 <= k < new_crate_names(s).len() implies (exists|j: int|
            0 <= j < s.len() && !s[j].crate_exists && #[trigger] new_crate_names(s)[k]
                == crate_name_of(s[j].name@)) by {
            if s[0].crate_exists {
                assert(new_crate_names(s) == new_crate_names(tail));
                let j0 = choose|j: int|
                    0 <= j < tail.len() && !tail[j].crate_exists && new_crate_names(tail)[k]
                        == crate_name_of(tail[j].name@);
                assert(tail[j0] == s[j0 + 1]);
                assert(0 <= j0 + 1 < s.len() && !s[j0 + 1].crate_exists && new_crate_names(s)[k]
                    == crate_name_of(s[j0 + 1].name@));
            } else {
                if k == 0 {
                    assert(new_crate_names(s)[0] == crate_name_of(s[0].name@));
                    assert(0 <= 0 < s.len() && !s[0].crate_exists && new_crate_names(s)[0]
                        == crate_name_of(s[0].name@));
                } else {
                    assert(new_crate_names(s)[k] == new_crate_names(tail)[k - 1]);
                    let j0 = choose|j: int|
                        0 <= j < tail.len() && !tail[j].crate_exists && new_crate_names(tail)[k
                            - 1] == crate_name_of(tail[j].name@);
                    assert(tail[j0] == s[j0 + 1]);
                    assert(0 <= j0 + 1 < s.len() && !s[j0 + 1].crate_exists && new_crate_names(
                        s,
                    )[k] == crate_name_of(s[j0 + 1].name@));
                }
            }
        }
    }
}

/// A module whose target crate already exists before the run is absent from
/// the new-crate list: no crate name it maps to is recorded. The facts are
/// asked to come from one disk state: requests that map to the same target
/// crate agree on whether it exists.
pub proof fn law_existing_crate_not_recorded(s: Seq<ModuleFacts>, i: int)
    requires
        0 <= i < s.len(),
        s[i].crate_exists,
        forall|j: int|
            0 <= j < s.len() && crate_name_of(#[trigger] s[j].name@) == crate_name_of(s[i].name@)
                ==> s[j].crate_exists,
    ensures
        !new_crate_names(s).contains(crate_name_of(s[i].name@)),
{
    lemma_new_crates_from_absent(s);
    if new_crate_names(s).contains(crate_name_of(s[i].name@)) {
        let k = choose|k: int|
            0 <= k < new_crate_names(s).len() && new_crate_names(s)[k] == crate_name_of(
                s[i].name@,
            );
        let j = choose|j: int|
            0 <= j < s.len() && !s[j].crate_exists && new_crate_names(s)[k] == crate_name_of(
                s[j].name@,
            );
        assert(crate_name_of(s[j].name@) == crate_name_of(s[i].name@));
        assert(false);
    }
}

/// An error that aborts the run, carrying the module name it names.
#[derive(Debug)]
pub enum RunError {
    /// The module's generated top-level file was not found.
    MissingFile { module: Vec<u8> },
    /// The module's generated directory was not found.
    MissingDir { module: Vec<u8> },
}

/// Whether `e` is exactly the error owed to the facts `f`.
pub open spec fn error_for(e: RunError, f: ModuleFacts) -> bool {
    match e {
        RunError::MissingFile { module } => !f.file_exists && module@ == f.name@,
        RunError::MissingDir { module } => f.file_exists && !f.dir_exists && module@ == f.name@,
    }
}

/// Walk the requested modules in order and decide the run: the ordered list
/// of crate names to create, or the error of the first module whose
/// generated inputs are missing.
pub fn plan_run(mods: &Vec<ModuleFacts>) -> (r: Result<Vec<Vec<u8>>, RunError>)
    ensures
        (r is Ok) <==> all_ok(mods@),
        r matches Ok(v) ==> v@.map_values(|x: Vec<u8>| x@) == new_crate_names(mods@),
        r matches Err(e) ==> (exists|i: int|
            0 <= i < mods@.len() && !module_ok(#[trigger] mods@[i]) && (forall|j: int|
                0 <= j < i ==> module_ok(#[trigger] mods@[j])) && error_for(e, mods@[i])),
{
    let mut names: Vec<Vec<u8>> = Vec::new();
    let mut i: usize = 0;
    while i < mods.len()
        invariant
            i <= mods@.len(),
            forall|j: int| 0 <= j < i ==> module_ok(#[trigger] mods@[j]),
            names@.map_values(|x: Vec<u8>| x@) == new_crate_names(mods@.subrange(0, i as int)),
        decreases mods@.len() - i,
    {
        let f = &mods[i];
        match decide_module(f) {
            ModuleStep::AbortMissingFile => {
                return Result::Err(RunError::MissingFile { module: clone_bytes(&f.name) });
            },
            ModuleStep::AbortMissingDir => {
                return Result::Err(RunError::MissingDir { module: clone_bytes(&f.name) });
            },
            ModuleStep::Skip => {},
            ModuleStep::Create => {
                let cn = crate_name_for(&f.name);
                names.push(cn);
            },
        }
        proof {
            lemma_new_crate_names_snoc(mods@.subrange(0, i as int), mods@[i as int]);
            assert(mods@.subrange(0, i as int).push(mods@[i as int]) =~= mods@.subrange(
                0,
                i + 1,
            ));
            assert(names@.map_values(|x: Vec<u8>| x@) =~= new_crate_names(
                mods@.subrange(0, i + 1),
            ));
        }
        i = i + 1;
    }
    proof {
        assert(mods@.subrange(0, mods@.len() as int) =~= mods@);
    }
    Result::Ok(names)
}

/// The files of one freshly populated crate, as the run leaves them.
pub struct NewCrate {
    /// The crate's name.
    pub crate_name: Vec<u8>,
    /// The crate's dependency manifest: the scaffolded skeleton with the
    /// fixed dependency block appended.
    pub dep_manifest: Vec<u8>,
    /// The crate's library entry file: the prelude, then the generated
    /// module body, verbatim.
    pub lib_entry: Vec<u8>,
    /// The copy of the module's generated directory.
    pub contents: DirTree,
}

/// Populate one freshly scaffolded crate: derive its name from the module
/// name, append the fixed dependency block to the skeleton's manifest, build
/// the library entry file from the prelude and the module body, and copy the
/// module's generated directory.
pub fn populate_crate(
    module: &Vec<u8>,
    skeleton_manifest: &Vec<u8>,
    prelude: &Vec<u8>,
    body: &Vec<u8>,
    dir: &DirTree,
) -> (c: NewCrate)
    ensures
        c.crate_name@ == crate_name_of(module@),
        c.dep_manifest@ == with_dep_block(skeleton_manifest@),
        c.lib_entry@ == lib_entry_of(prelude@, body@),
        same_tree(*dir, c.contents),
{
    let crate_name = crate_name_for(module);
    let mut dep_manifest = clone_bytes(skeleton_manifest);
    append_dep_block(&mut dep_manifest);
    let lib_entry = lib_entry_for(prelude, body);
    let contents = copy_tree(dir);
    NewCrate { crate_name, dep_manifest, lib_entry, contents }
}

/// A populated crate's files have the owed layout: the dependency manifest
/// keeps the scaffolded skeleton as its prefix and ends with the fixed
/// dependency block, and the library entry file begins with the prelude and
/// ends with exactly the bytes of the module body.
pub proof fn law_populated_crate_layout(
    skeleton: Seq<u8>,
    prelude: Seq<u8>,
    body: Seq<u8>,
    c: NewCrate,
)
    requires
        c.dep_manifest@ == with_dep_block(skeleton),
        c.lib_entry@ == lib_entry_of(prelude, body),
    ensures
        c.dep_manifest@.len() == skeleton.len() + crate::content::dep_block().len(),
        c.dep_manifest@.subrange(0, skeleton.len() as int) == skeleton,
        c.dep_manifest@.subrange(skeleton.len() as int, c.dep_manifest@.len() as int)
            == crate::content::dep_block(),
        c.lib_entry@.len() == prelude.len() + body.len(),
        c.lib_entry@.subrange(0, prelude.len() as int) == prelude,
        c.lib_entry@.subrange(prelude.len() as int, c.lib_entry@.len() as int) == body,
{
    crate::content::lemma_dep_block_appended(skeleton);
    crate::content::lemma_lib_entry_layout(prelude, body);
}

/// Apply the run's aftermath: with no new crates, nothing is touched; with
/// new crates, the re-export suggestions are produced and both manifests
/// take all the additions, in request order.
pub fn finish_run(
    ws: &mut WorkspaceManifest,
    pac: &mut DepManifest,
    new_crates: &Vec<Vec<u8>>,
) -> (lines: Vec<Vec<u8>>)
    ensures
        new_crates@.len() == 0 ==> *final(ws) == *old(ws) && *final(pac) == *old(pac)
            && lines@.len() == 0,
        final(ws).rest@ == old(ws).rest@,
        final(pac).rest@ == old(pac).rest@,
        new_crates@.len() > 0 ==> {
            let names = new_crates@.map_values(|v: Vec<u8>| v@);
            &&& final(ws).members_view() == old(ws).members_view() + member_paths_of(names)
            &&& final(pac).deps_view() == with_deps(old(pac).deps_view(), names)
            &&& lines@.map_values(|v: Vec<u8>| v@) == reexport_lines_of(names)
        },
{
    if new_crates.len() == 0 {
        return Vec::new();
    }
    let lines = reexport_lines_for(new_crates);
    ws.add_members(new_crates);
    pac.add_dependencies(new_crates);
    lines
}

} // verus!
