//! The build invoker: for a plan and the outcomes of the steps run so far,
//! the next step to take. Whoever runs the steps hands each exit status back.
use vstd::prelude::*;

use crate::detect::{BuildPlan, BuildPlanView};
use crate::kind::BuildSystemKind;
use crate::text::{texts, join, owned, join_path, push_text, push_all};

verus! {

/// The stage that a step belongs to, reported when it fails.
#[derive(Clone, Copy, Debug, PartialEq, Eq, Structural)]
pub enum Stage {
    Make,
    Configure,
    CmakeSetup,
    Cargo,
    MesonSetup,
    Ninja,
    Nimble,
    Stack,
}

impl Stage {
    /// The stage's name as shown to the operator.
    pub open spec fn spec_name(self) -> Seq<char> {
        match self {
            Stage::Make => "make"@,
            Stage::Configure => "configure"@,
            Stage::CmakeSetup => "cmake-setup"@,
            Stage::Cargo => "cargo"@,
            Stage::MesonSetup => "meson-setup"@,
            Stage::Ninja => "ninja"@,
            Stage::Nimble => "nimble"@,
            Stage::Stack => "stack"@,
        }
    }

    /// The stage's name as shown to the operator.
    pub fn name(&self) -> (r: &'static str)
        ensures
            r@ == self.spec_name(),
    {
        match self {
            Stage::Make => "make",
            Stage::Configure => "configure",
            Stage::CmakeSetup => "cmake-setup",
            Stage::Cargo => "cargo",
            Stage::MesonSetup => "meson-setup",
            Stage::Ninja => "ninja",
            Stage::Nimble => "nimble",
            Stage::Stack => "stack",
        }
    }
}

/// One external command: its program, arguments and working directory.
pub struct Invocation {
    pub program: String,
    pub args: Vec<String>,
    pub cwd: String,
    pub stage: Stage,
}

pub struct InvocationView {
    pub program: Seq<char>,
    pub args: Seq<Seq<char>>,
    pub cwd: Seq<char>,
    pub stage: Stage,
}

impl View for Invocation {
    type V = InvocationView;

    open spec fn view(&self) -> InvocationView {
        InvocationView { program: self.program@, args: texts(self.args@), cwd: self.cwd@, stage: self.stage }
    }
}

/// What to do next for a build.
pub enum BuildAction {
    /// Create this directory (and its parents); its success is the step's outcome.
    CreateDir(String),
    /// Run this command; its exit status is the step's outcome.
    Run(Invocation),
    /// The build is done and succeeded.
    Succeeded,
    /// The build failed in this stage.
    Failed(Stage),
}

pub enum BuildActionView {
    CreateDir(Seq<char>),
    Run(InvocationView),
    Succeeded,
    Failed(Stage),
}

impl View for BuildAction {
    type V = BuildActionView;

    open spec fn view(&self) -> BuildActionView {
        match self {
            BuildAction::CreateDir(d) => BuildActionView::CreateDir(d@),
            BuildAction::Run(i) => BuildActionView::Run(i@),
            BuildAction::Succeeded => BuildActionView::Succeeded,
            BuildAction::Failed(s) => BuildActionView::Failed(*s),
        }
    }
}

pub open spec fn run_step(program: Seq<char>, args: Seq<Seq<char>>, cwd: Seq<char>, stage: Stage) -> BuildActionView {
    BuildActionView::Run(InvocationView { program, args, cwd, stage })
}

pub open spec fn finish(ok: bool, stage: Stage) -> BuildActionView {
    if ok {
        BuildActionView::Succeeded
    } else {
        BuildActionView::Failed(stage)
    }
}

/// The makefile that make is pointed at.
pub open spec fn makefile_of(p: BuildPlanView) -> Seq<char> {
    match p.build_file {
        Some(f) => f,
        None => "Makefile"@,
    }
}

/// The step of a one-command recipe: run it, then report its outcome.
pub open spec fn single_step(h: Seq<bool>, program: Seq<char>, args: Seq<Seq<char>>, cwd: Seq<char>, stage: Stage) -> BuildActionView {
    if h.len() == 0 {
        run_step(program, args, cwd, stage)
    } else {
        finish(h[0], stage)
    }
}

/// Meson's final ninja run, taken once `n` earlier steps have been run.
pub open spec fn ninja_after(h: Seq<bool>, n: int, dir: Seq<char>) -> BuildActionView {
    if h.len() == n {
        run_step("ninja"@, seq!["-C"@, join(dir, "build"@)], dir, Stage::Ninja)
    } else {
        finish(h[n], Stage::Ninja)
    }
}

/// The next step of a build by plan `p`, where `h` holds the outcomes of the
/// steps taken so far, in order.
pub open spec fn next_step(p: BuildPlanView, h: Seq<bool>) -> BuildActionView {
    let dir = p.source_dir;
    let f = p.extra_flags;
    let b = join(dir, "build"@);
    match p.kind {
        BuildSystemKind::Make => single_step(h, "make"@, seq!["-f"@, makefile_of(p)] + f, dir, Stage::Make),
        BuildSystemKind::Autotools => if h.len() == 0 {
            run_step("./configure"@, f, dir, Stage::Configure)
        } else if !h[0] {
            BuildActionView::Failed(Stage::Configure)
        } else if h.len() == 1 {
            run_step("make"@, Seq::empty(), dir, Stage::Make)
        } else {
            finish(h[1], Stage::Make)
        },
        BuildSystemKind::CMake => if h.len() == 0 {
            BuildActionView::CreateDir(b)
        } else if !h[0] {
            BuildActionView::Failed(Stage::CmakeSetup)
        } else if h.len() == 1 {
            run_step("cmake"@, seq!["-DCMAKE_BUILD_TYPE=Release"@] + f + seq![".."@], b, Stage::CmakeSetup)
        } else if h[1] {
            BuildActionView::Succeeded
        } else if h.len() == 2 {
            run_step("cmake"@, f + seq![".."@], b, Stage::CmakeSetup)
        } else {
            finish(h[2], Stage::CmakeSetup)
        },
        BuildSystemKind::Cargo => single_step(
            h,
            "cargo"@,
            seq!["build"@, "--release"@] + f + seq![
                "--manifest-path"@,
                join(dir, "Cargo.toml"@),
                "--target-dir"@,
                join(dir, "target"@),
            ],
            dir,
            Stage::Cargo,
        ),
        BuildSystemKind::Meson => if h.len() == 0 {
            BuildActionView::CreateDir(b)
        } else if !h[0] {
            BuildActionView::Failed(Stage::MesonSetup)
        } else if h.len() == 1 {
            run_step("meson"@, seq!["setup"@] + f + seq![b], dir, Stage::MesonSetup)
        } else if h[1] {
            ninja_after(h, 2, dir)
        } else if h.len() == 2 {
            run_step("meson"@, seq![b], dir, Stage::MesonSetup)
        } else {
            ninja_after(h, 3, dir)
        },
        BuildSystemKind::Ninja => single_step(h, "ninja"@, f, dir, Stage::Ninja),
        BuildSystemKind::Nimble => single_step(h, "nimble"@, seq!["build"@] + f, dir, Stage::Nimble),
        BuildSystemKind::Stack => single_step(
            h,
            "stack"@,
            seq!["install"@] + f + seq!["--local-bin-path"@, join(dir, "bin"@)],
            dir,
            Stage::Stack,
        ),
    }
}

fn run_in(program: &str, args: Vec<String>, cwd: String, stage: Stage) -> (r: BuildAction)
    ensures
        r@ == run_step(program@, texts(args@), cwd@, stage),
{
    BuildAction::Run(Invocation { program: owned(program), args, cwd, stage })
}

fn finished(ok: bool, stage: Stage) -> (r: BuildAction)
    ensures
        r@ == finish(ok, stage),
{
    if ok {
        BuildAction::Succeeded
    } else {
        BuildAction::Failed(stage)
    }
}

fn meson_ninja(history: &Vec<bool>, n: usize, dir: &str) -> (r: BuildAction)
    requires
        n <= history@.len(),
    ensures
        r@ == ninja_after(history@, n as int, dir@),
{
    if history.len() == n {
        let mut args: Vec<String> = Vec::new();
        push_text(&mut args, "-C");
        let b = join_path(dir, "build");
        push_text(&mut args, b.as_str());
        assert(texts(args@) =~= seq!["-C"@, join(dir@, "build"@)]);
        run_in("ninja", args, owned(dir), Stage::Ninja)
    } else {
        finished(history[n], Stage::Ninja)
    }
}

/// The next step of a build by `plan`, where `history` holds the outcomes of
/// the steps taken so far, in order.
pub fn next_action(plan: &BuildPlan, history: &Vec<bool>) -> (r: BuildAction)
    ensures
        r@ == next_step(plan@, history@),
{
    let dir = plan.source_dir.as_str();
    let h = history;
    let ghost f = texts(plan.extra_flags@);
    match plan.kind {
        BuildSystemKind::Make => {
            if h.len() == 0 {
                let mut args: Vec<String> = Vec::new();
                push_text(&mut args, "-f");
                match &plan.build_file {
                    Some(m) => push_text(&mut args, m.as_str()),
                    None => push_text(&mut args, "Makefile"),
                }
                push_all(&mut args, &plan.extra_flags);
                assert(texts(args@) =~= seq!["-f"@, makefile_of(plan@)] + f);
                run_in("make", args, owned(dir), Stage::Make)
            } else {
                finished(h[0], Stage::Make)
            }
        },
        BuildSystemKind::Autotools => {
            if h.len() == 0 {
                let mut args: Vec<String> = Vec::new();
                push_all(&mut args, &plan.extra_flags);
                assert(texts(args@) =~= f);
                run_in("./configure", args, owned(dir), Stage::Configure)
            } else if !h[0] {
                BuildAction::Failed(Stage::Configure)
            } else if h.len() == 1 {
                let args: Vec<String> = Vec::new();
                assert(texts(args@) =~= Seq::<Seq<char>>::empty());
                run_in("make", args, owned(dir), Stage::Make)
            } else {
                finished(h[1], Stage::Make)
            }
        },
        BuildSystemKind::CMake => {
            if h.len() == 0 {
                BuildAction::CreateDir(join_path(dir, "build"))
            } else if !h[0] {
                BuildAction::Failed(Stage::CmakeSetup)
            } else if h.len() == 1 {
                let mut args: Vec<String> = Vec::new();
                push_text(&mut args, "-DCMAKE_BUILD_TYPE=Release");
                push_all(&mut args, &plan.extra_flags);
                push_text(&mut args, "..");
                assert(texts(args@) =~= seq!["-DCMAKE_BUILD_TYPE=Release"@] + f + seq![".."@]);
                run_in("cmake", args, join_path(dir, "build"), Stage::CmakeSetup)
            } else if h[1] {
                BuildAction::Succeeded
            } else if h.len() == 2 {
                let mut args: Vec<String> = Vec::new();
                push_all(&mut args, &plan.extra_flags);
                push_text(&mut args, "..");
                assert(texts(args@) =~= f + seq![".."@]);
                run_in("cmake", args, join_path(dir, "build"), Stage::CmakeSetup)
            } else {
                finished(h[2], Stage::CmakeSetup)
            }
        },
        BuildSystemKind::Cargo => {
            if h.len() == 0 {
                let mut args: Vec<String> = Vec::new();
                push_text(&mut args, "build");
                push_text(&mut args, "--release");
                push_all(&mut args, &plan.extra_flags);
                push_text(&mut args, "--manifest-path");
                let manifest = join_path(dir, "Cargo.toml");
                push_text(&mut args, manifest.as_str());
                push_text(&mut args, "--target-dir");
                let target = join_path(dir, "target");
                push_text(&mut args, target.as_str());
                assert(texts(args@) =~= seq!["build"@, "--release"@] + f + seq![
                    "--manifest-path"@,
                    join(dir@, "Cargo.toml"@),
                    "--target-dir"@,
                    join(dir@, "target"@),
                ]);
                run_in("cargo", args, owned(dir), Stage::Cargo)
            } else {
                finished(h[0], Stage::Cargo)
            }
        },
        BuildSystemKind::Meson => {
            if h.len() == 0 {
                BuildAction::CreateDir(join_path(dir, "build"))
            } else if !h[0] {
                BuildAction::Failed(Stage::MesonSetup)
            } else if h.len() == 1 {
                let mut args: Vec<String> = Vec::new();
                push_text(&mut args, "setup");
                push_all(&mut args, &plan.extra_flags);
                let b = join_path(dir, "build");
                push_text(&mut args, b.as_str());
                assert(texts(args@) =~= seq!["setup"@] + f + seq![join(dir@, "build"@)]);
                run_in("meson", args, owned(dir), Stage::MesonSetup)
            } else if h[1] {
                meson_ninja(h, 2, dir)
            } else if h.len() == 2 {
                let mut args: Vec<String> = Vec::new();
                let b = join_path(dir, "build");
                push_text(&mut args, b.as_str());
                assert(texts(args@) =~= seq![join(dir@, "build"@)]);
                run_in("meson", args, owned(dir), Stage::MesonSetup)
            } else {
                meson_ninja(h, 3, dir)
            }
        },
        BuildSystemKind::Ninja => {
            if h.len() == 0 {
                let mut args: Vec<String> = Vec::new();
                push_all(&mut args, &plan.extra_flags);
                assert(texts(args@) =~= f);
                run_in("ninja", args, owned(dir), Stage::Ninja)
            } else {
                finished(h[0], Stage::Ninja)
            }
        },
        BuildSystemKind::Nimble => {
            if h.len() == 0 {
                let mut args: Vec<String> = Vec::new();
                push_text(&mut args, "build");
                push_all(&mut args, &plan.extra_flags);
                assert(texts(args@) =~= seq!["build"@] + f);
                run_in("nimble", args, owned(dir), Stage::Nimble)
            } else {
                finished(h[0], Stage::Nimble)
            }
        },
        BuildSystemKind::Stack => {
            if h.len() == 0 {
                let mut args: Vec<String> = Vec::new();
                push_text(&mut args, "install");
                push_all(&mut args, &plan.extra_flags);
                push_text(&mut args, "--local-bin-path");
                let bin = join_path(dir, "bin");
                push_text(&mut args, bin.as_str());
                assert(texts(args@) =~= seq!["install"@] + f + seq!["--local-bin-path"@, join(dir@, "bin"@)]);
                run_in("stack", args, owned(dir), Stage::Stack)
            } else {
                finished(h[0], Stage::Stack)
            }
        },
    }
}

/// Every build ends after at most four steps: with four outcomes known, the
/// next action reports success or a failed stage.
pub proof fn build_ends_within_four_steps(p: BuildPlanView, h: Seq<bool>)
    requires
        h.len() >= 4,
    ensures
        next_step(p, h) is Succeeded || next_step(p, h) is Failed,
{
}

/// CMake: once the build directory exists, cmake runs with the release build
/// type; if that succeeds, no other step runs; if it fails, cmake runs once
/// more without the build type, and that run's outcome is the build's.
pub proof fn cmake_retries_once(p: BuildPlanView, second: bool)
    requires
        p.kind == BuildSystemKind::CMake,
    ensures
        next_step(p, seq![]) == BuildActionView::CreateDir(join(p.source_dir, "build"@)),
        next_step(p, seq![true]) == run_step(
            "cmake"@,
            seq!["-DCMAKE_BUILD_TYPE=Release"@] + p.extra_flags + seq![".."@],
            join(p.source_dir, "build"@),
            Stage::CmakeSetup,
        ),
        next_step(p, seq![true, true]) == BuildActionView::Succeeded,
        next_step(p, seq![true, false]) == run_step(
            "cmake"@,
            p.extra_flags + seq![".."@],
            join(p.source_dir, "build"@),
            Stage::CmakeSetup,
        ),
        next_step(p, seq![true, false, second]) == finish(second, Stage::CmakeSetup),
{
}

/// Meson: when `meson setup` fails, the simpler `meson <dir>/build` runs once,
/// then ninja runs whatever that gave, and ninja's outcome is the build's.
pub proof fn meson_falls_back_once(p: BuildPlanView, fallback: bool, ninja: bool)
    requires
        p.kind == BuildSystemKind::Meson,
    ensures
        next_step(p, seq![true, false]) == run_step(
            "meson"@,
            seq![join(p.source_dir, "build"@)],
            p.source_dir,
            Stage::MesonSetup,
        ),
        next_step(p, seq![true, false, fallback]) == run_step(
            "ninja"@,
            seq!["-C"@, join(p.source_dir, "build"@)],
            p.source_dir,
            Stage::Ninja,
        ),
        next_step(p, seq![true, false, fallback, ninja]) == finish(ninja, Stage::Ninja),
        next_step(p, seq![true, true]) == run_step(
            "ninja"@,
            seq!["-C"@, join(p.source_dir, "build"@)],
            p.source_dir,
            Stage::Ninja,
        ),
{
}

} // verus!
