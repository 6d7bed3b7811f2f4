//! The per-package pipeline around detection, build and location: batch
//! requests, workspace paths, the confirmation gate, and outcomes.
use vstd::prelude::*;

use crate::detect::{BuildPlan, DetectError};
use crate::invoke::{BuildAction, Stage};
use crate::text::{texts, join, owned, join_path, push_text, push_all, copy_all, same_text};

verus! {

/// One package to install, processed on its own.
pub struct PackageRequest {
    pub name: String,
    pub caller_flags: Vec<String>,
    pub auto_confirm: bool,
}

/// Splits a batch into one request per package, in order, each with the
/// caller's flags and confirmation choice.
pub fn install(packages: &Vec<String>, flags: &Vec<String>, yes: bool) -> (r: Vec<PackageRequest>)
    ensures
        r@.len() == packages@.len(),
        forall|i: int|
            0 <= i < r@.len() ==> (#[trigger] r@[i]).name@ == packages@[i]@ && texts(r@[i].caller_flags@)
                == texts(flags@) && r@[i].auto_confirm == yes,
{
    let mut r: Vec<PackageRequest> = Vec::new();
    let mut i: usize = 0;
    while i < packages.len()
        invariant
            i <= packages@.len(),
            r@.len() == i,
            forall|j: int|
                0 <= j < i ==> (#[trigger] r@[j]).name@ == packages@[j]@ && texts(r@[j].caller_flags@)
                    == texts(flags@) && r@[j].auto_confirm == yes,
        decreases packages@.len() - i,
    {
        r.push(PackageRequest { name: owned(packages[i].as_str()), caller_flags: copy_all(flags), auto_confirm: yes });
        i = i + 1;
    }
    r
}

/// How a package is installed on this machine.
#[derive(Clone, Copy, Debug, PartialEq, Eq, Structural)]
pub enum InstallRoute {
    /// Hand the whole package to the distribution's makepkg.
    Makepkg,
    /// Detect the build system and drive it.
    BuildSystem,
}

/// The route for a package: makepkg on Arch Linux, else the build-system engine.
pub fn install_single(arch_release: bool) -> (r: InstallRoute)
    ensures
        r == (if arch_release { InstallRoute::Makepkg } else { InstallRoute::BuildSystem }),
{
    if arch_release {
        InstallRoute::Makepkg
    } else {
        InstallRoute::BuildSystem
    }
}

/// The directory a package's source is fetched into under the workspace root.
pub fn package_dir(workspace_root: &str, package: &str) -> (r: String)
    ensures
        r@ == join(join(workspace_root@, "builds"@), package@),
{
    let builds = join_path(workspace_root, "builds");
    join_path(builds.as_str(), package)
}

/// The repository a package's source is cloned from.
pub fn clone_url(package: &str) -> (r: String)
    ensures
        r@ == "https://aur.archlinux.org/"@ + package@ + ".git"@,
{
    let mut r = owned("https://aur.archlinux.org/");
    r.append(package);
    r.append(".git");
    r
}

/// The arguments of makepkg: build and install, without prompts when the
/// caller confirmed up front, then the caller's flags.
pub fn makepkg_args(flags: &Vec<String>, yes: bool) -> (r: Vec<String>)
    ensures
        texts(r@) == seq!["-si"@] + (if yes { seq!["--noconfirm"@] } else { Seq::empty() }) + texts(flags@),
{
    let mut r: Vec<String> = Vec::new();
    push_text(&mut r, "-si");
    if yes {
        push_text(&mut r, "--noconfirm");
    }
    let ghost head = texts(r@);
    assert(head =~= seq!["-si"@] + (if yes { seq!["--noconfirm"@] } else { Seq::empty() }));
    push_all(&mut r, flags);
    r
}

/// Whether to show the build file and ask before building: not when the
/// caller confirmed up front, not when the manifest chose the build system,
/// and not when there is no build file to show.
pub fn needs_confirmation(plan: &BuildPlan, auto_confirm: bool) -> (r: bool)
    ensures
        r == (!auto_confirm && !plan.from_manifest && plan.build_file is Some),
{
    !auto_confirm && !plan.from_manifest && plan.build_file.is_some()
}

/// Whether `c` has the Unicode White_Space property.
pub open spec fn is_white(c: char) -> bool {
    let u = c as u32;
    (9 <= u <= 13) || u == 32 || u == 0x85 || u == 0xa0 || u == 0x1680 || (0x2000 <= u <= 0x200a) || u
        == 0x2028 || u == 0x2029 || u == 0x202f || u == 0x205f || u == 0x3000
}

/// `s` without its leading whitespace.
pub open spec fn trim_start(s: Seq<char>) -> Seq<char>
    decreases s.len(),
{
    if s.len() > 0 && is_white(s[0]) {
        trim_start(s.drop_first())
    } else {
        s
    }
}

/// `s` without its trailing whitespace.
pub open spec fn trim_end(s: Seq<char>) -> Seq<char>
    decreases s.len(),
{
    if s.len() > 0 && is_white(s.last()) {
        trim_end(s.drop_last())
    } else {
        s
    }
}

/// `s` without leading and trailing whitespace.
pub open spec fn trimmed(s: Seq<char>) -> Seq<char> {
    trim_end(trim_start(s))
}

/// Whether `c` has the Unicode White_Space property.
pub fn is_white_char(c: char) -> (r: bool)
    ensures
        r == is_white(c),
{
    let u = c as u32;
    (9 <= u && u <= 13) || u == 32 || u == 0x85 || u == 0xa0 || u == 0x1680 || (0x2000 <= u && u <= 0x200a)
        || u == 0x2028 || u == 0x2029 || u == 0x202f || u == 0x205f || u == 0x3000
}

/// `s` without leading and trailing whitespace.
pub fn trim_text(s: &str) -> (r: &str)
    ensures
        r@ == trimmed(s@),
{
    let n = s.unicode_len();
    assert(s@.subrange(0, n as int) =~= s@);
    let mut a: usize = 0;
    while a < n && is_white_char(s.get_char(a))
        invariant
            n == s@.len(),
            a <= n,
            trim_start(s@) == trim_start(s@.subrange(a as int, n as int)),
        decreases n - a,
    {
        assert(s@.subrange(a as int, n as int).drop_first() =~= s@.subrange(a + 1, n as int));
        assert(s@.subrange(a as int, n as int)[0] == s@[a as int]);
        a = a + 1;
    }
    assert(trim_start(s@) == s@.subrange(a as int, n as int)) by {
        if a < n {
            assert(s@.subrange(a as int, n as int)[0] == s@[a as int]);
        }
    }
    let mut b: usize = n;
    while b > a && is_white_char(s.get_char(b - 1))
        invariant
            n == s@.len(),
            a <= b <= n,
            trim_end(s@.subrange(a as int, n as int)) == trim_end(s@.subrange(a as int, b as int)),
        decreases b,
    {
        assert(s@.subrange(a as int, b as int).drop_last() =~= s@.subrange(a as int, b - 1));
        assert(s@.subrange(a as int, b as int).last() == s@[b - 1]);
        b = b - 1;
    }
    assert(trim_end(s@.subrange(a as int, b as int)) == s@.subrange(a as int, b as int)) by {
        if b > a {
            assert(s@.subrange(a as int, b as int).last() == s@[b - 1]);
        }
    }
    s.substring_char(a, b)
}

/// Whether an answer, already trimmed, declines: `n` in either case.
pub open spec fn is_no(answer: Seq<char>) -> bool {
    answer == "n"@ || answer == "N"@
}

/// Whether a trimmed answer to the confirmation prompt declines.
pub fn declines(answer: &str) -> (r: bool)
    ensures
        r == is_no(answer@),
{
    same_text(answer, "n") || same_text(answer, "N")
}

/// Whether a line typed at the confirmation prompt declines; anything else,
/// an empty line included, proceeds.
pub fn is_decline(input: &str) -> (r: bool)
    ensures
        r == is_no(trimmed(input@)),
{
    declines(trim_text(input))
}

/// What a finished build amounts to: success, or the stage it failed in.
pub fn build_result(last: &BuildAction) -> (r: Result<(), Stage>)
    requires
        last is Succeeded || last is Failed,
    ensures
        last is Succeeded ==> r is Ok,
        last is Failed ==> r == Err::<(), Stage>(last->Failed_0),
{
    match last {
        BuildAction::Failed(s) => Err(*s),
        _ => Ok(()),
    }
}

/// The last component of a path: what follows its last `/`.
pub open spec fn base_name(p: Seq<char>) -> Seq<char>
    decreases p.len(),
{
    if p.len() == 0 {
        p
    } else if p.last() == '/' {
        Seq::empty()
    } else {
        base_name(p.drop_last()).push(p.last())
    }
}

proof fn lemma_base_name(p: Seq<char>, i: int)
    requires
        0 <= i <= p.len(),
        i == 0 || p[i - 1] == '/',
        forall|k: int| i <= k < p.len() ==> p[k] != '/',
    ensures
        base_name(p) == p.subrange(i, p.len() as int),
    decreases p.len(),
{
    if p.len() == i {
        assert(p.subrange(i, i) =~= Seq::<char>::empty());
        if i > 0 {
            assert(p.last() == '/');
        }
    } else {
        lemma_base_name(p.drop_last(), i);
        assert(p.subrange(i, p.len() as int) =~= p.drop_last().subrange(i, p.len() - 1).push(p.last()));
    }
}

/// The last component of a path.
pub fn file_name(path: &str) -> (r: &str)
    ensures
        r@ == base_name(path@),
{
    let n = path.unicode_len();
    let mut i: usize = n;
    while i > 0 && path.get_char(i - 1) != '/'
        invariant
            n == path@.len(),
            i <= n,
            forall|k: int| i <= k < n ==> path@[k] != '/',
        decreases i,
    {
        i = i - 1;
    }
    proof {
        lemma_base_name(path@, i as int);
    }
    path.substring_char(i, n)
}

/// The user-local binary directory under a home directory.
pub fn local_bin_dir(home: &str) -> (r: String)
    ensures
        r@ == join(home@, ".local/bin"@),
{
    join_path(home, ".local/bin")
}

/// Where an artifact is copied: the user-local binary directory, under the
/// artifact's own file name.
pub fn install_destination(home: &str, artifact: &str) -> (r: String)
    ensures
        r@ == join(join(home@, ".local/bin"@), base_name(artifact@)),
{
    let dir = local_bin_dir(home);
    join_path(dir.as_str(), file_name(artifact))
}

/// How far one package's pipeline has got: the result of each stage that ran.
pub struct Progress {
    /// Whether the source was fetched.
    pub fetched: Option<bool>,
    /// Whether a plan was made, or why not.
    pub detected: Option<Result<(), DetectError>>,
    /// Whether to go on (true where no confirmation was asked for).
    pub confirmed: Option<bool>,
    /// Whether the build succeeded, or the stage it failed in.
    pub built: Option<Result<(), Stage>>,
    /// Whether the artifact was found.
    pub located: Option<bool>,
    /// Where the artifact was copied to, or nothing where the copy failed.
    pub copied: Option<Option<String>>,
}

/// How a package's pipeline ended.
#[derive(Clone, Debug, PartialEq, Eq)]
pub enum Ending {
    /// Installed at this path.
    Installed(String),
    Cancelled,
    CloneFailed,
    ManifestInvalid,
    NoBuildSystemFound,
    BuildFailed(Stage),
    BinaryNotFound,
    CopyFailed,
}

/// The next stage of a package's pipeline.
#[derive(Clone, Debug, PartialEq, Eq)]
pub enum Phase {
    Fetch,
    Detect,
    Confirm,
    Build,
    Locate,
    Copy,
    Finish(Ending),
}

/// The next stage: each stage runs once the one before it succeeded, and the
/// first failure ends the pipeline with that stage's ending.
pub open spec fn phase_after(p: Progress) -> Phase {
    match p.fetched {
        None => Phase::Fetch,
        Some(false) => Phase::Finish(Ending::CloneFailed),
        Some(true) => match p.detected {
            None => Phase::Detect,
            Some(Err(DetectError::ManifestInvalid)) => Phase::Finish(Ending::ManifestInvalid),
            Some(Err(DetectError::NoBuildSystem)) => Phase::Finish(Ending::NoBuildSystemFound),
            Some(Ok(())) => match p.confirmed {
                None => Phase::Confirm,
                Some(false) => Phase::Finish(Ending::Cancelled),
                Some(true) => match p.built {
                    None => Phase::Build,
                    Some(Err(s)) => Phase::Finish(Ending::BuildFailed(s)),
                    Some(Ok(())) => match p.located {
                        None => Phase::Locate,
                        Some(false) => Phase::Finish(Ending::BinaryNotFound),
                        Some(true) => match p.copied {
                            None => Phase::Copy,
                            Some(None) => Phase::Finish(Ending::CopyFailed),
                            Some(Some(dest)) => Phase::Finish(Ending::Installed(dest)),
                        },
                    },
                },
            },
        },
    }
}

/// The next stage of a package's pipeline, from the results so far.
pub fn next_phase(p: &Progress) -> (r: Phase)
    ensures
        r == phase_after(*p),
{
    match p.fetched {
        None => {
            return Phase::Fetch;
        },
        Some(false) => {
            return Phase::Finish(Ending::CloneFailed);
        },
        Some(true) => {},
    }
    match p.detected {
        None => {
            return Phase::Detect;
        },
        Some(Err(DetectError::ManifestInvalid)) => {
            return Phase::Finish(Ending::ManifestInvalid);
        },
        Some(Err(DetectError::NoBuildSystem)) => {
            return Phase::Finish(Ending::NoBuildSystemFound);
        },
        Some(Ok(())) => {},
    }
    match p.confirmed {
        None => {
            return Phase::Confirm;
        },
        Some(false) => {
            return Phase::Finish(Ending::Cancelled);
        },
        Some(true) => {},
    }
    match p.built {
        None => {
            return Phase::Build;
        },
        Some(Err(s)) => {
            return Phase::Finish(Ending::BuildFailed(s));
        },
        Some(Ok(())) => {},
    }
    match p.located {
        None => Phase::Locate,
        Some(false) => Phase::Finish(Ending::BinaryNotFound),
        Some(true) => match &p.copied {
            None => Phase::Copy,
            Some(None) => Phase::Finish(Ending::CopyFailed),
            Some(Some(dest)) => Phase::Finish(Ending::Installed(dest.clone())),
        },
    }
}

/// A build runs only for a fetched tree that got a plan and was not declined.
pub proof fn build_needs_plan(p: Progress)
    requires
        phase_after(p) == Phase::Build,
    ensures
        p.fetched == Some(true),
        p.detected is Some && p.detected->Some_0 is Ok,
        p.confirmed == Some(true),
{
}

/// When no build system is found the pipeline ends there, with that
/// ending, and no build step runs.
pub proof fn undetected_ends_without_build(p: Progress)
    requires
        p.fetched == Some(true),
        p.detected == Some(Err::<(), DetectError>(DetectError::NoBuildSystem)),
    ensures
        phase_after(p) == Phase::Finish(Ending::NoBuildSystemFound),
{
}

/// A build that succeeded but left no artifact ends in a locate failure, not
/// a build failure.
pub proof fn missing_artifact_is_not_a_build_failure(p: Progress)
    requires
        p.fetched == Some(true),
        p.detected == Some(Ok::<(), DetectError>(())),
        p.confirmed == Some(true),
        p.built == Some(Ok::<(), Stage>(())),
        p.located == Some(false),
    ensures
        phase_after(p) == Phase::Finish(Ending::BinaryNotFound),
{
}
} // verus!
