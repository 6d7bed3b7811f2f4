use aurora::detect::{detect, BuildPlan};
use aurora::invoke::{next_action, BuildAction, Stage};
use aurora::kind::BuildSystemKind;
use aurora::locate::{find_binary_path, search_order, DirEntryInfo, EntryType, Lookup, Visit};

fn names(list: &[&str]) -> Vec<String> {
    list.iter().map(|s| s.to_string()).collect()
}

fn plan(list: &[&str], flags: &[&str]) -> BuildPlan {
    detect(&names(list), &None, &names(flags), "/w/pkg").ok().unwrap()
}

fn run(a: BuildAction) -> (String, Vec<String>, String, Stage) {
    match a {
        BuildAction::Run(i) => (i.program, i.args, i.cwd, i.stage),
        _ => panic!("expected a command"),
    }
}

fn is_success(a: &BuildAction) -> bool {
    matches!(a, BuildAction::Succeeded)
}

fn failed_stage(a: &BuildAction) -> Option<Stage> {
    match a {
        BuildAction::Failed(s) => Some(*s),
        _ => None,
    }
}

#[test]
fn cmake_scenario() {
    let p = plan(&["CMakeLists.txt"], &["-DFOO=1"]);
    assert_eq!(p.kind, BuildSystemKind::CMake);
    assert!(matches!(next_action(&p, &vec![]), BuildAction::CreateDir(d) if d == "/w/pkg/build"));
    let (prog, args, cwd, stage) = run(next_action(&p, &vec![true]));
    assert_eq!(prog, "cmake");
    assert_eq!(args, names(&["-DCMAKE_BUILD_TYPE=Release", "-DFOO=1", ".."]));
    assert_eq!(cwd, "/w/pkg/build");
    assert_eq!(stage, Stage::CmakeSetup);
    assert!(is_success(&next_action(&p, &vec![true, true])));
    let lookup = find_binary_path("/w/pkg", "pkg", p.kind, &None);
    assert!(matches!(lookup, Lookup::FirstExisting(v) if v == names(&["/w/pkg/build/pkg"])));
}

#[test]
fn cmake_retries_without_build_type() {
    let p = plan(&["CMakeLists.txt"], &["-DFOO=1"]);
    let (prog, args, _, _) = run(next_action(&p, &vec![true, false]));
    assert_eq!(prog, "cmake");
    assert_eq!(args, names(&["-DFOO=1", ".."]));
    assert_eq!(failed_stage(&next_action(&p, &vec![true, false, false])), Some(Stage::CmakeSetup));
    assert!(is_success(&next_action(&p, &vec![true, false, true])));
    assert_eq!(failed_stage(&next_action(&p, &vec![false])), Some(Stage::CmakeSetup));
}

#[test]
fn meson_fallback_scenario() {
    let p = plan(&["meson.build"], &["-Dopt=true"]);
    assert!(matches!(next_action(&p, &vec![]), BuildAction::CreateDir(d) if d == "/w/pkg/build"));
    let (prog, args, cwd, _) = run(next_action(&p, &vec![true]));
    assert_eq!(prog, "meson");
    assert_eq!(args, names(&["setup", "-Dopt=true", "/w/pkg/build"]));
    assert_eq!(cwd, "/w/pkg");
    let (prog, args, _, stage) = run(next_action(&p, &vec![true, false]));
    assert_eq!(prog, "meson");
    assert_eq!(args, names(&["/w/pkg/build"]));
    assert_eq!(stage, Stage::MesonSetup);
    let (prog, args, _, stage) = run(next_action(&p, &vec![true, false, true]));
    assert_eq!(prog, "ninja");
    assert_eq!(args, names(&["-C", "/w/pkg/build"]));
    assert_eq!(stage, Stage::Ninja);
    assert!(is_success(&next_action(&p, &vec![true, false, true, true])));
    let (prog, _, _, _) = run(next_action(&p, &vec![true, false, false]));
    assert_eq!(prog, "ninja");
    assert!(is_success(&next_action(&p, &vec![true, false, false, true])));
    assert_eq!(failed_stage(&next_action(&p, &vec![true, false, false, false])), Some(Stage::Ninja));
    let (prog, _, _, _) = run(next_action(&p, &vec![true, true]));
    assert_eq!(prog, "ninja");
    assert!(is_success(&next_action(&p, &vec![true, true, true])));
}

#[test]
fn autotools_stops_at_configure() {
    let p = plan(&["configure"], &["--prefix=/x"]);
    let (prog, args, cwd, stage) = run(next_action(&p, &vec![]));
    assert_eq!(prog, "./configure");
    assert_eq!(args, names(&["--prefix=/x"]));
    assert_eq!(cwd, "/w/pkg");
    assert_eq!(stage, Stage::Configure);
    assert_eq!(failed_stage(&next_action(&p, &vec![false])), Some(Stage::Configure));
    let (prog, args, _, stage) = run(next_action(&p, &vec![true]));
    assert_eq!(prog, "make");
    assert!(args.is_empty());
    assert_eq!(stage, Stage::Make);
    assert_eq!(failed_stage(&next_action(&p, &vec![true, false])), Some(Stage::Make));
    assert!(is_success(&next_action(&p, &vec![true, true])));
}

#[test]
fn make_uses_found_makefile() {
    let p = plan(&["GNUMakefile"], &["-j2"]);
    let (prog, args, _, _) = run(next_action(&p, &vec![]));
    assert_eq!(prog, "make");
    assert_eq!(args, names(&["-f", "GNUMakefile", "-j2"]));
    assert!(is_success(&next_action(&p, &vec![true])));
    assert_eq!(failed_stage(&next_action(&p, &vec![false])), Some(Stage::Make));
}

#[test]
fn cargo_command_line() {
    let p = plan(&["Cargo.toml"], &["--offline", "--verbose"]);
    let (prog, args, cwd, stage) = run(next_action(&p, &vec![]));
    assert_eq!(prog, "cargo");
    assert_eq!(
        args,
        names(&[
            "build",
            "--release",
            "--offline",
            "--verbose",
            "--manifest-path",
            "/w/pkg/Cargo.toml",
            "--target-dir",
            "/w/pkg/target",
        ])
    );
    assert_eq!(cwd, "/w/pkg");
    assert_eq!(stage, Stage::Cargo);
    assert_eq!(Stage::Cargo.name(), "cargo");
    assert_eq!(Stage::CmakeSetup.name(), "cmake-setup");
}

#[test]
fn ninja_nimble_stack_command_lines() {
    let (prog, args, _, _) = run(next_action(&plan(&["build.ninja"], &["-v"]), &vec![]));
    assert_eq!((prog.as_str(), args), ("ninja", names(&["-v"])));
    let (prog, args, _, _) = run(next_action(&plan(&["x.nimble"], &["-d:release"]), &vec![]));
    assert_eq!((prog.as_str(), args), ("nimble", names(&["build", "-d:release"])));
    let (prog, args, _, stage) = run(next_action(&plan(&["stack.yaml"], &[]), &vec![]));
    assert_eq!((prog.as_str(), args), ("stack", names(&["install", "--local-bin-path", "/w/pkg/bin"])));
    assert_eq!(stage, Stage::Stack);
}

#[test]
fn lookups_per_kind() {
    let l = find_binary_path("/w/pkg", "pkg", BuildSystemKind::Cargo, &Some("tool".to_string()));
    assert!(matches!(l, Lookup::FirstExisting(v) if v == names(&["/w/pkg/target/release/tool", "/w/pkg/target/debug/tool"])));
    let l = find_binary_path("/w/pkg", "pkg", BuildSystemKind::Cargo, &None);
    assert!(matches!(l, Lookup::FirstExisting(v) if v == names(&["/w/pkg/target/release/pkg", "/w/pkg/target/debug/pkg"])));
    let l = find_binary_path("/w/pkg", "pkg", BuildSystemKind::Nimble, &None);
    assert!(matches!(l, Lookup::FirstExisting(v) if v == names(&["/w/pkg/pkg"])));
    let l = find_binary_path("/w/pkg", "pkg", BuildSystemKind::Meson, &None);
    assert!(matches!(l, Lookup::SearchUnder { dir, name } if dir == "/w/pkg/build" && name == "pkg"));
    let l = find_binary_path("/w/pkg", "pkg", BuildSystemKind::Stack, &None);
    assert!(matches!(l, Lookup::SearchUnder { dir, name } if dir == "/w/pkg/bin" && name == "pkg"));
}

#[test]
fn search_moves_follow_listing() {
    let entries = vec![
        DirEntryInfo { name: "notes".to_string(), entry_type: EntryType::File },
        DirEntryInfo { name: "sub".to_string(), entry_type: EntryType::Directory },
        DirEntryInfo { name: "pkg".to_string(), entry_type: EntryType::File },
        DirEntryInfo { name: "pkg".to_string(), entry_type: EntryType::Other },
    ];
    let moves = search_order("/w/pkg/build", &entries, "pkg");
    assert_eq!(moves.len(), 2);
    assert!(matches!(&moves[0], Visit::Descend(p) if p == "/w/pkg/build/sub"));
    assert!(matches!(&moves[1], Visit::Found(p) if p == "/w/pkg/build/pkg"));
    assert!(search_order("/d", &vec![], "pkg").is_empty());
}
