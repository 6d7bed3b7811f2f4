use aurora::detect::{detect, BuildPlan, DetectError, OverrideConfig};
use aurora::doc::{find_member, list_texts, node_text, Node};
use aurora::invoke::{next_action, BuildAction};
use aurora::kind::BuildSystemKind;
use aurora::manifest::{get_cargo_binary_name, parse_override, select_binary_name, string_flags};

fn names(list: &[&str]) -> Vec<String> {
    list.iter().map(|s| s.to_string()).collect()
}

fn plan(list: &[&str], manifest: Option<OverrideConfig>, flags: &[&str]) -> Result<BuildPlan, DetectError> {
    detect(&names(list), &manifest, &names(flags), "/tmp/aurora/builds/pkg")
}

fn kind_of(list: &[&str]) -> Option<BuildSystemKind> {
    plan(list, None, &[]).ok().map(|p| p.kind)
}

#[test]
fn single_marker_gives_its_kind() {
    assert_eq!(kind_of(&["Makefile"]), Some(BuildSystemKind::Make));
    assert_eq!(kind_of(&["makefile", "README"]), Some(BuildSystemKind::Make));
    assert_eq!(kind_of(&["GNUMakefile"]), Some(BuildSystemKind::Make));
    assert_eq!(kind_of(&["configure"]), Some(BuildSystemKind::Autotools));
    assert_eq!(kind_of(&["Cargo.toml", "src"]), Some(BuildSystemKind::Cargo));
    assert_eq!(kind_of(&["CMakeLists.txt"]), Some(BuildSystemKind::CMake));
    assert_eq!(kind_of(&["meson.build"]), Some(BuildSystemKind::Meson));
    assert_eq!(kind_of(&["build.ninja"]), Some(BuildSystemKind::Ninja));
    assert_eq!(kind_of(&["tool.nimble"]), Some(BuildSystemKind::Nimble));
    assert_eq!(kind_of(&["stack.yaml"]), Some(BuildSystemKind::Stack));
}

#[test]
fn marker_file_is_reported() {
    let p = plan(&["README", "makefile", "GNUMakefile"], None, &[]).ok().unwrap();
    assert_eq!(p.build_file, Some("makefile".to_string()));
    assert!(!p.from_manifest);
    let p = plan(&["a.txt", "first.nimble", "second.nimble"], None, &[]).ok().unwrap();
    assert_eq!(p.build_file, Some("first.nimble".to_string()));
    assert_eq!(p.source_dir, "/tmp/aurora/builds/pkg");
}

#[test]
fn bare_nimble_suffix_is_no_marker() {
    assert_eq!(kind_of(&[".nimble"]), None);
}

#[test]
fn override_wins_over_markers() {
    let m = OverrideConfig { build_system: Some("meson".to_string()), flags: vec![] };
    let p = plan(&["Makefile", "Cargo.toml", "meson.build"], Some(m), &[]).ok().unwrap();
    assert_eq!(p.kind, BuildSystemKind::Meson);
    assert!(p.from_manifest);
    assert_eq!(p.build_file, Some("meson.build".to_string()));
    let m = OverrideConfig { build_system: Some("stack".to_string()), flags: vec![] };
    let p = plan(&["Makefile"], Some(m), &[]).ok().unwrap();
    assert_eq!(p.kind, BuildSystemKind::Stack);
    assert_eq!(p.build_file, None);
}

#[test]
fn unknown_override_falls_back_to_markers() {
    let m = OverrideConfig { build_system: Some("bazel".to_string()), flags: names(&["-j4"]) };
    let p = plan(&["CMakeLists.txt"], Some(m), &["-DX=1"]).ok().unwrap();
    assert_eq!(p.kind, BuildSystemKind::CMake);
    assert!(!p.from_manifest);
    assert_eq!(p.extra_flags, names(&["-j4", "-DX=1"]));
}

#[test]
fn makefile_beats_cargo() {
    assert_eq!(kind_of(&["Cargo.toml", "Makefile"]), Some(BuildSystemKind::Make));
    assert_eq!(kind_of(&["Makefile", "Cargo.toml"]), Some(BuildSystemKind::Make));
    assert_eq!(kind_of(&["stack.yaml", "configure", "Cargo.toml"]), Some(BuildSystemKind::Autotools));
}

#[test]
fn no_marker_is_not_found() {
    assert!(matches!(plan(&["README.md", "src", "LICENSE"], None, &[]), Err(DetectError::NoBuildSystem)));
    assert!(matches!(plan(&[], None, &["--x"]), Err(DetectError::NoBuildSystem)));
    let m = OverrideConfig { build_system: None, flags: vec![] };
    assert!(matches!(plan(&["README.md"], Some(m), &[]), Err(DetectError::NoBuildSystem)));
}

#[test]
fn detection_repeats_identically() {
    let a = plan(&["meson.build", "build.ninja"], None, &["-Dx=y"]).ok().unwrap();
    let b = plan(&["meson.build", "build.ninja"], None, &["-Dx=y"]).ok().unwrap();
    assert_eq!(a.kind, b.kind);
    assert_eq!(a.extra_flags, b.extra_flags);
    assert_eq!(a.build_file, b.build_file);
    assert_eq!(a.from_manifest, b.from_manifest);
    assert_eq!(a.kind, BuildSystemKind::Meson);
}

#[test]
fn manifest_flags_come_before_caller_flags() {
    let m = parse_override("{\"build_system\": \"cargo\", \"flags\": [\"--offline\"]}").ok().unwrap();
    assert_eq!(m.build_system, Some("cargo".to_string()));
    let p = plan(&["Makefile"], Some(m), &["--verbose"]).ok().unwrap();
    assert_eq!(p.kind, BuildSystemKind::Cargo);
    assert_eq!(p.extra_flags, names(&["--offline", "--verbose"]));
    match next_action(&p, &vec![]) {
        BuildAction::Run(i) => {
            assert_eq!(i.program, "cargo");
            assert_eq!(&i.args[2..4], &names(&["--offline", "--verbose"])[..]);
        }
        _ => panic!("expected the cargo command"),
    }
}

#[test]
fn override_reader_keeps_string_flags() {
    let m = parse_override("{\"flags\": [\"-a\", 3, \"-b\", null]}").ok().unwrap();
    assert_eq!(m.build_system, None);
    assert_eq!(m.flags, names(&["-a", "-b"]));
    let m = parse_override("{\"build_system\": 7}").ok().unwrap();
    assert_eq!(m.build_system, None);
    assert!(m.flags.is_empty());
}

#[test]
fn malformed_override_is_rejected() {
    assert!(matches!(parse_override("{\"build_system\": "), Err(DetectError::ManifestInvalid)));
    assert!(matches!(parse_override(""), Err(DetectError::ManifestInvalid)));
}

#[test]
fn kind_names_round_trip() {
    for k in [
        BuildSystemKind::Make,
        BuildSystemKind::Autotools,
        BuildSystemKind::Cargo,
        BuildSystemKind::CMake,
        BuildSystemKind::Meson,
        BuildSystemKind::Ninja,
        BuildSystemKind::Nimble,
        BuildSystemKind::Stack,
    ] {
        assert_eq!(BuildSystemKind::from_name(k.name()), Some(k));
    }
    assert_eq!(BuildSystemKind::from_name("Make"), None);
    assert_eq!(BuildSystemKind::CMake.label(), "CMake");
}

#[test]
fn cargo_binary_name_prefers_bin_entry() {
    let text = "[package]\nname = \"pkgname\"\n\n[[bin]]\npath = \"x.rs\"\n\n[[bin]]\nname = \"tool\"\n";
    assert_eq!(get_cargo_binary_name(text), Some("tool".to_string()));
    let text = "[package]\nname = \"pkgname\"\nversion = \"0.1.0\"\n";
    assert_eq!(get_cargo_binary_name(text), Some("pkgname".to_string()));
    assert_eq!(get_cargo_binary_name("[dependencies]\n"), None);
    assert_eq!(get_cargo_binary_name("[package\nname ="), None);
}

#[test]
fn binary_name_selection() {
    let bins = vec![None, Some("b".to_string()), Some("c".to_string())];
    assert_eq!(select_binary_name(&bins, Some("p".to_string())), Some("b".to_string()));
    assert_eq!(select_binary_name(&vec![None], Some("p".to_string())), Some("p".to_string()));
    assert_eq!(select_binary_name(&vec![], None), None);
}

#[test]
fn only_string_flag_items_are_kept() {
    let items = vec![Some("-a".to_string()), None, Some("-b".to_string())];
    assert_eq!(string_flags(&items), names(&["-a", "-b"]));
    assert!(string_flags(&vec![None, None]).is_empty());
}

#[test]
fn document_lookups() {
    let doc = Node::Table(vec![
        ("name".to_string(), Node::Text("x".to_string())),
        ("list".to_string(), Node::List(vec![Node::Text("a".to_string()), Node::Other])),
    ]);
    assert_eq!(node_text(find_member(&doc, "name")), Some("x".to_string()));
    assert!(find_member(&doc, "missing").is_none());
    assert!(find_member(&Node::Other, "name").is_none());
    assert_eq!(list_texts(find_member(&doc, "list")), vec![Some("a".to_string()), None]);
    assert!(list_texts(find_member(&doc, "name")).is_empty());
}
