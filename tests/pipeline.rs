use aurora::detect::{detect, DetectError};
use aurora::install::{
    build_result, clone_url, declines, file_name, install, install_destination, install_single, is_decline,
    makepkg_args, needs_confirmation, trim_text, next_phase, package_dir, Ending, InstallRoute, Phase, Progress,
};
use aurora::invoke::{BuildAction, Stage};

fn names(list: &[&str]) -> Vec<String> {
    list.iter().map(|s| s.to_string()).collect()
}

fn fresh() -> Progress {
    Progress { fetched: None, detected: None, confirmed: None, built: None, located: None, copied: None }
}

#[test]
fn missing_artifact_is_a_locate_error() {
    let p = Progress {
        fetched: Some(true),
        detected: Some(Ok(())),
        confirmed: Some(true),
        built: Some(Ok(())),
        located: Some(false),
        copied: None,
    };
    assert_eq!(next_phase(&p), Phase::Finish(Ending::BinaryNotFound));
    let p = Progress { located: None, built: Some(Err(Stage::Configure)), ..p };
    assert_eq!(next_phase(&p), Phase::Finish(Ending::BuildFailed(Stage::Configure)));
}

#[test]
fn pipeline_runs_stages_in_order() {
    let mut p = fresh();
    assert_eq!(next_phase(&p), Phase::Fetch);
    p.fetched = Some(true);
    assert_eq!(next_phase(&p), Phase::Detect);
    p.detected = Some(Ok(()));
    assert_eq!(next_phase(&p), Phase::Confirm);
    p.confirmed = Some(true);
    assert_eq!(next_phase(&p), Phase::Build);
    p.built = Some(Ok(()));
    assert_eq!(next_phase(&p), Phase::Locate);
    p.located = Some(true);
    assert_eq!(next_phase(&p), Phase::Copy);
    p.copied = Some(Some("/home/u/.local/bin/pkg".to_string()));
    assert_eq!(next_phase(&p), Phase::Finish(Ending::Installed("/home/u/.local/bin/pkg".to_string())));
    p.copied = Some(None);
    assert_eq!(next_phase(&p), Phase::Finish(Ending::CopyFailed));
}

#[test]
fn pipeline_stops_at_first_failure() {
    let p = Progress { fetched: Some(false), ..fresh() };
    assert_eq!(next_phase(&p), Phase::Finish(Ending::CloneFailed));
    let p = Progress { fetched: Some(true), detected: Some(Err(DetectError::NoBuildSystem)), ..fresh() };
    assert_eq!(next_phase(&p), Phase::Finish(Ending::NoBuildSystemFound));
    let p = Progress { fetched: Some(true), detected: Some(Err(DetectError::ManifestInvalid)), ..fresh() };
    assert_eq!(next_phase(&p), Phase::Finish(Ending::ManifestInvalid));
    let p = Progress { fetched: Some(true), detected: Some(Ok(())), confirmed: Some(false), ..fresh() };
    assert_eq!(next_phase(&p), Phase::Finish(Ending::Cancelled));
}

#[test]
fn finished_builds_map_to_results() {
    assert_eq!(build_result(&BuildAction::Succeeded), Ok(()));
    assert_eq!(build_result(&BuildAction::Failed(Stage::Ninja)), Err(Stage::Ninja));
}

#[test]
fn batch_becomes_requests() {
    let r = install(&names(&["a", "b"]), &names(&["-x"]), true);
    assert_eq!(r.len(), 2);
    assert_eq!(r[0].name, "a");
    assert_eq!(r[1].name, "b");
    assert_eq!(r[1].caller_flags, names(&["-x"]));
    assert!(r[0].auto_confirm);
    assert!(install(&vec![], &names(&["-x"]), false).is_empty());
}

#[test]
fn route_by_distribution() {
    assert_eq!(install_single(true), InstallRoute::Makepkg);
    assert_eq!(install_single(false), InstallRoute::BuildSystem);
}

#[test]
fn workspace_paths() {
    assert_eq!(package_dir("/tmp/aurora", "foo"), "/tmp/aurora/builds/foo");
    assert_eq!(clone_url("foo"), "https://aur.archlinux.org/foo.git");
}

#[test]
fn makepkg_arguments() {
    assert_eq!(makepkg_args(&names(&["--skippgpcheck"]), true), names(&["-si", "--noconfirm", "--skippgpcheck"]));
    assert_eq!(makepkg_args(&vec![], false), names(&["-si"]));
}

#[test]
fn confirmation_gate() {
    let p = detect(&names(&["Makefile"]), &None, &vec![], "/w").ok().unwrap();
    assert!(needs_confirmation(&p, false));
    assert!(!needs_confirmation(&p, true));
    let m = aurora::detect::OverrideConfig { build_system: Some("make".to_string()), flags: vec![] };
    let p = detect(&names(&["Makefile"]), &Some(m), &vec![], "/w").ok().unwrap();
    assert!(!needs_confirmation(&p, false));
}

#[test]
fn declining_answers() {
    assert!(is_decline("n\n"));
    assert!(is_decline("\u{3000}\tn\u{a0}"));
    assert!(!is_decline("\u{200b}n"));
    assert!(is_decline("  N  "));
    assert!(!is_decline("\n"));
    assert!(!is_decline("y"));
    assert!(!is_decline("no"));
    assert!(declines("n"));
    assert!(!declines(" n"));
}

#[test]
fn destination_of_artifact() {
    assert_eq!(file_name("/w/pkg/target/release/tool"), "tool");
    assert_eq!(file_name("tool"), "tool");
    assert_eq!(install_destination("/home/u", "/w/pkg/build/pkg"), "/home/u/.local/bin/pkg");
}

#[test]
fn trimming_whitespace() {
    assert_eq!(trim_text("  a b \r\n"), "a b");
    assert_eq!(trim_text(" \t "), "");
    assert_eq!(trim_text(""), "");
    assert_eq!(trim_text("\u{2003}x\u{85}"), "x");
}
