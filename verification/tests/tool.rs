use pac_import::content::append_dep_block;
use pac_import::content::dep_block_vec;
use pac_import::content::lib_entry_for;
use pac_import::copier::copy_tree;
use pac_import::copier::DirTree;
use pac_import::manifest::member_path_for;
use pac_import::manifest::DepManifest;
use pac_import::manifest::WorkspaceManifest;
use pac_import::names::after_first;
use pac_import::names::crate_name_for;
use pac_import::names::reexport_line_for;
use pac_import::names::reexport_lines_for;
use pac_import::names::replace_byte;
use pac_import::run::decide_module;
use pac_import::run::finish_run;
use pac_import::run::plan_run;
use pac_import::run::populate_crate;
use pac_import::run::ModuleFacts;
use pac_import::run::ModuleStep;
use pac_import::run::RunError;

fn facts(name: &[u8], file_exists: bool, dir_exists: bool, crate_exists: bool) -> ModuleFacts {
    ModuleFacts { name: name.to_vec(), file_exists, dir_exists, crate_exists }
}

fn tree_equal(a: &DirTree, b: &DirTree) -> bool {
    match (a, b) {
        (DirTree::File { name: an, data: ad }, DirTree::File { name: bn, data: bd }) => {
            an == bn && ad == bd
        }
        (DirTree::Dir { name: an, entries: ae }, DirTree::Dir { name: bn, entries: be }) => {
            an == bn
                && ae.len() == be.len()
                && ae.iter().zip(be.iter()).all(|(x, y)| tree_equal(x, y))
        }
        _ => false,
    }
}

#[test]
fn crate_name_replaces_underscores_and_prefixes() {
    assert_eq!(crate_name_for(&b"gpio".to_vec()), b"project-gpio".to_vec());
    assert_eq!(crate_name_for(&b"flexio_1".to_vec()), b"project-flexio-1".to_vec());
    assert_eq!(crate_name_for(&b"".to_vec()), b"project-".to_vec());
}

#[test]
fn replace_byte_swaps_every_occurrence() {
    assert_eq!(replace_byte(&b"a_b_c".to_vec(), b'_', b'-'), b"a-b-c".to_vec());
    assert_eq!(replace_byte(&b"abc".to_vec(), b'_', b'-'), b"abc".to_vec());
    assert_eq!(replace_byte(&b"".to_vec(), b'_', b'-'), b"".to_vec());
}

#[test]
fn after_first_takes_everything_past_the_first_hit() {
    assert_eq!(after_first(&b"project_gpio".to_vec(), b'_'), b"gpio".to_vec());
    assert_eq!(after_first(&b"a_b_c".to_vec(), b'_'), b"b_c".to_vec());
    assert_eq!(after_first(&b"_x".to_vec(), b'_'), b"x".to_vec());
    assert_eq!(after_first(&b"nounderscore".to_vec(), b'_'), b"".to_vec());
}

#[test]
fn reexport_suggestions_for_two_crates() {
    let names = vec![b"project-gpio".to_vec(), b"project-uart".to_vec()];
    let lines = reexport_lines_for(&names);
    assert_eq!(lines.len(), 2);
    assert_eq!(lines[0], b"pub use project_gpio as gpio;".to_vec());
    assert_eq!(lines[1], b"pub use project_uart as uart;".to_vec());
}

#[test]
fn reexport_line_keeps_later_underscores() {
    let line = reexport_line_for(&b"project-flexio-1".to_vec());
    assert_eq!(line, b"pub use project_flexio_1 as flexio_1;".to_vec());
}

#[test]
fn dep_manifest_ends_with_fixed_block() {
    let mut manifest = b"[package]\nname = \"project-gpio\"\n".to_vec();
    let before = manifest.clone();
    append_dep_block(&mut manifest);
    let block = dep_block_vec();
    assert_eq!(manifest.len(), before.len() + block.len());
    assert_eq!(&manifest[..before.len()], &before[..]);
    assert_eq!(&manifest[before.len()..], &block[..]);
}

#[test]
fn lib_entry_is_prelude_then_exact_body() {
    let prelude = b"// prelude line\n".to_vec();
    let body = b"pub struct RegisterBlock;\n".to_vec();
    let lib = lib_entry_for(&prelude, &body);
    assert_eq!(&lib[..prelude.len()], &prelude[..]);
    assert_eq!(&lib[prelude.len()..], &body[..]);
}

#[test]
fn copier_round_trip_preserves_files_and_directories() {
    let src = DirTree::Dir {
        name: b"src".to_vec(),
        entries: vec![
            DirTree::File { name: b"mod.rs".to_vec(), data: b"pub mod a;\n".to_vec() },
            DirTree::Dir {
                name: b"nested".to_vec(),
                entries: vec![
                    DirTree::File { name: b"a.rs".to_vec(), data: vec![0, 1, 2, 255] },
                    DirTree::File { name: b"b.rs".to_vec(), data: vec![] },
                ],
            },
            DirTree::Dir { name: b"empty".to_vec(), entries: vec![] },
        ],
    };
    let dst = copy_tree(&src);
    assert!(tree_equal(&src, &dst));
}

#[test]
fn workspace_append_is_order_preserving_and_duplicate_tolerant() {
    let mut ws = WorkspaceManifest {
        rest: b"[workspace]\n".to_vec(),
        members: vec![b"project-pac".to_vec()],
    };
    let names = vec![b"project-gpio".to_vec(), b"project-uart".to_vec()];
    ws.add_members(&names);
    ws.add_members(&names);
    assert_eq!(ws.rest, b"[workspace]\n".to_vec());
    assert_eq!(ws.members.len(), 5);
    assert_eq!(ws.members[0], b"project-pac".to_vec());
    assert_eq!(ws.members[1], b"project-pac/project-gpio".to_vec());
    assert_eq!(ws.members[2], b"project-pac/project-uart".to_vec());
    assert_eq!(ws.members[3], b"project-pac/project-gpio".to_vec());
    assert_eq!(ws.members[4], b"project-pac/project-uart".to_vec());
}

#[test]
fn member_path_prefixes_the_pac_directory() {
    assert_eq!(member_path_for(&b"project-gpio".to_vec()), b"project-pac/project-gpio".to_vec());
}

#[test]
fn dependency_insert_appends_new_and_overwrites_colliding() {
    let mut pac = DepManifest {
        rest: b"[package]\nname = \"project-pac\"\n".to_vec(),
        deps: vec![(b"project-gpio".to_vec(), b"old-spec".to_vec())],
    };
    let names = vec![b"project-gpio".to_vec(), b"project-uart".to_vec()];
    pac.add_dependencies(&names);
    assert_eq!(pac.deps.len(), 2);
    assert_eq!(pac.deps[0], (b"project-gpio".to_vec(), b"project-gpio".to_vec()));
    assert_eq!(pac.deps[1], (b"project-uart".to_vec(), b"project-uart".to_vec()));
}

#[test]
fn decide_module_orders_its_checks() {
    assert_eq!(decide_module(&facts(b"gpio", false, true, false)), ModuleStep::AbortMissingFile);
    assert_eq!(decide_module(&facts(b"gpio", true, false, false)), ModuleStep::AbortMissingDir);
    assert_eq!(decide_module(&facts(b"gpio", false, false, true)), ModuleStep::AbortMissingFile);
    assert_eq!(decide_module(&facts(b"gpio", true, true, true)), ModuleStep::Skip);
    assert_eq!(decide_module(&facts(b"gpio", true, true, false)), ModuleStep::Create);
}

#[test]
fn existing_crate_is_skipped_and_not_recorded() {
    let mods = vec![
        facts(b"gpio", true, true, true),
        facts(b"uart", true, true, false),
    ];
    let plan = plan_run(&mods).unwrap();
    assert_eq!(plan, vec![b"project-uart".to_vec()]);
}

#[test]
fn missing_file_aborts_the_run() {
    let mods = vec![
        facts(b"gpio", true, true, false),
        facts(b"dma", false, true, false),
    ];
    match plan_run(&mods) {
        Err(RunError::MissingFile { module }) => assert_eq!(module, b"dma".to_vec()),
        _ => panic!("expected the missing-file error"),
    }
}

#[test]
fn missing_directory_aborts_the_run() {
    let mods = vec![facts(b"dma", true, false, false)];
    match plan_run(&mods) {
        Err(RunError::MissingDir { module }) => assert_eq!(module, b"dma".to_vec()),
        _ => panic!("expected the missing-directory error"),
    }
}

#[test]
fn empty_new_crate_list_touches_nothing() {
    let mut ws = WorkspaceManifest {
        rest: b"[workspace]\n".to_vec(),
        members: vec![b"project-pac".to_vec()],
    };
    let mut pac = DepManifest { rest: vec![], deps: vec![] };
    let lines = finish_run(&mut ws, &mut pac, &vec![]);
    assert!(lines.is_empty());
    assert_eq!(ws.members.len(), 1);
    assert!(pac.deps.is_empty());
}

#[test]
fn end_to_end_single_gpio_module() {
    // The generator output holds src/gpio.rs and src/gpio/ with a mod.rs;
    // the target crate project-gpio is absent.
    let mods = vec![facts(b"gpio", true, true, false)];
    let new_crates = plan_run(&mods).unwrap();
    assert_eq!(new_crates, vec![b"project-gpio".to_vec()]);

    let prelude = b"// shared register access\n".to_vec();
    let body = b"pub struct Gpio;\n".to_vec();
    let skeleton = b"[package]\nname = \"project-gpio\"\n".to_vec();
    let module_dir = DirTree::Dir {
        name: b"gpio".to_vec(),
        entries: vec![DirTree::File { name: b"mod.rs".to_vec(), data: b"pub mod pins;\n".to_vec() }],
    };
    let crate_files = populate_crate(&b"gpio".to_vec(), &skeleton, &prelude, &body, &module_dir);
    assert_eq!(crate_files.crate_name, b"project-gpio".to_vec());
    let mut expected_manifest = skeleton.clone();
    expected_manifest.extend_from_slice(&dep_block_vec());
    assert_eq!(crate_files.dep_manifest, expected_manifest);
    let mut expected_lib = prelude.clone();
    expected_lib.extend_from_slice(&body);
    assert_eq!(crate_files.lib_entry, expected_lib);
    assert!(tree_equal(&module_dir, &crate_files.contents));

    let mut ws = WorkspaceManifest { rest: b"[workspace]\n".to_vec(), members: vec![] };
    let mut pac = DepManifest { rest: b"[package]\n".to_vec(), deps: vec![] };
    let lines = finish_run(&mut ws, &mut pac, &new_crates);
    assert_eq!(ws.members, vec![b"project-pac/project-gpio".to_vec()]);
    assert_eq!(pac.deps, vec![(b"project-gpio".to_vec(), b"project-gpio".to_vec())]);
    assert_eq!(lines, vec![b"pub use project_gpio as gpio;".to_vec()]);
}

#[test]
fn fixed_dependency_block_text() {
    let expected = b"vcell = \"0.1.2\"\n\n[lib]\nbench = false\ntest = false\n".to_vec();
    assert_eq!(dep_block_vec(), expected);
}
