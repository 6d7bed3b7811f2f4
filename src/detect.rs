//! The build-system detector: classifies a source tree by its root listing
//! and an optional override manifest.
use vstd::prelude::*;

use crate::kind::{BuildSystemKind, marks_at_most_one_kind, has_marker, is_makefile_name, is_nimble_name, kind_named, marks, is_marker, is_nimble_file};
use crate::text::{texts, owned, copy_all, push_all, same_text};

verus! {

/// What an override manifest in the source tree says.
pub struct OverrideConfig {
    /// The build system it names, if it names one.
    pub build_system: Option<String>,
    /// Flags that come before the caller's.
    pub flags: Vec<String>,
}

/// Why no build plan could be made for a source tree.
#[derive(Clone, Copy, Debug, PartialEq, Eq, Structural)]
pub enum DetectError {
    /// The override manifest is not valid JSON.
    ManifestInvalid,
    /// No usable override and no marker file of a supported build system.
    NoBuildSystem,
}

/// The decision of which build system and flags to use for one package attempt.
pub struct BuildPlan {
    pub kind: BuildSystemKind,
    pub extra_flags: Vec<String>,
    pub source_dir: String,
    /// The marker file of `kind` found at the root, if there is one.
    pub build_file: Option<String>,
    /// Whether `kind` came from the override manifest.
    pub from_manifest: bool,
}

/// The mathematical value of a `BuildPlan`.
pub struct BuildPlanView {
    pub kind: BuildSystemKind,
    pub extra_flags: Seq<Seq<char>>,
    pub source_dir: Seq<char>,
    pub build_file: Option<Seq<char>>,
    pub from_manifest: bool,
}

pub open spec fn opt_text(o: Option<String>) -> Option<Seq<char>> {
    match o {
        Some(s) => Some(s@),
        None => None,
    }
}

impl View for BuildPlan {
    type V = BuildPlanView;

    open spec fn view(&self) -> BuildPlanView {
        BuildPlanView {
            kind: self.kind,
            extra_flags: texts(self.extra_flags@),
            source_dir: self.source_dir@,
            build_file: opt_text(self.build_file),
            from_manifest: self.from_manifest,
        }
    }
}

/// The kind that an override manifest names, if it names a supported one.
pub open spec fn override_kind(m: Option<OverrideConfig>) -> Option<BuildSystemKind> {
    match m {
        Some(c) => match c.build_system {
            Some(s) => kind_named(s@),
            None => None,
        },
        None => None,
    }
}

/// The flags of an override manifest; none without a manifest.
pub open spec fn override_flags(m: Option<OverrideConfig>) -> Seq<Seq<char>> {
    match m {
        Some(c) => texts(c.flags@),
        None => Seq::empty(),
    }
}

/// The kind whose marker comes first in the fixed priority order.
pub open spec fn marker_kind(names: Seq<Seq<char>>) -> Option<BuildSystemKind> {
    if has_marker(names, BuildSystemKind::Make) {
        Some(BuildSystemKind::Make)
    } else if has_marker(names, BuildSystemKind::Autotools) {
        Some(BuildSystemKind::Autotools)
    } else if has_marker(names, BuildSystemKind::Cargo) {
        Some(BuildSystemKind::Cargo)
    } else if has_marker(names, BuildSystemKind::CMake) {
        Some(BuildSystemKind::CMake)
    } else if has_marker(names, BuildSystemKind::Meson) {
        Some(BuildSystemKind::Meson)
    } else if has_marker(names, BuildSystemKind::Ninja) {
        Some(BuildSystemKind::Ninja)
    } else if has_marker(names, BuildSystemKind::Nimble) {
        Some(BuildSystemKind::Nimble)
    } else if has_marker(names, BuildSystemKind::Stack) {
        Some(BuildSystemKind::Stack)
    } else {
        None
    }
}

/// The kind chosen for a tree: the override's if usable, else the marker scan's.
pub open spec fn detected_kind(names: Seq<Seq<char>>, m: Option<OverrideConfig>) -> Option<BuildSystemKind> {
    if override_kind(m) is Some {
        override_kind(m)
    } else {
        marker_kind(names)
    }
}

/// The first name, in listing order, that matches `*.nimble`.
pub open spec fn first_nimble(names: Seq<Seq<char>>) -> Option<Seq<char>>
    decreases names.len(),
{
    if names.len() == 0 {
        None
    } else {
        match first_nimble(names.drop_last()) {
            Some(x) => Some(x),
            None => if is_nimble_name(names.last()) {
                Some(names.last())
            } else {
                None
            },
        }
    }
}

/// The marker file of `k` at the root: make's default names in make's own
/// order, the first listed `*.nimble`, or the one fixed name.
pub open spec fn marker_file(names: Seq<Seq<char>>, k: BuildSystemKind) -> Option<Seq<char>> {
    match k {
        BuildSystemKind::Make => if names.contains("Makefile"@) {
            Some("Makefile"@)
        } else if names.contains("makefile"@) {
            Some("makefile"@)
        } else if names.contains("GNUMakefile"@) {
            Some("GNUMakefile"@)
        } else {
            None
        },
        BuildSystemKind::Nimble => first_nimble(names),
        BuildSystemKind::Autotools => if names.contains("configure"@) { Some("configure"@) } else { None },
        BuildSystemKind::Cargo => if names.contains("Cargo.toml"@) { Some("Cargo.toml"@) } else { None },
        BuildSystemKind::CMake => if names.contains("CMakeLists.txt"@) { Some("CMakeLists.txt"@) } else { None },
        BuildSystemKind::Meson => if names.contains("meson.build"@) { Some("meson.build"@) } else { None },
        BuildSystemKind::Ninja => if names.contains("build.ninja"@) { Some("build.ninja"@) } else { None },
        BuildSystemKind::Stack => if names.contains("stack.yaml"@) { Some("stack.yaml"@) } else { None },
    }
}

/// The plan for a tree whose root holds `names`, where a kind is detected.
pub open spec fn plan_for(
    names: Seq<Seq<char>>,
    m: Option<OverrideConfig>,
    caller_flags: Seq<Seq<char>>,
    source_dir: Seq<char>,
) -> BuildPlanView {
    let k = detected_kind(names, m).unwrap();
    BuildPlanView {
        kind: k,
        extra_flags: override_flags(m) + caller_flags,
        source_dir,
        build_file: marker_file(names, k),
        from_manifest: override_kind(m) is Some,
    }
}

/// Whether a tree whose root holds `names` has a marker of `k`.
pub fn tree_has_marker(names: &Vec<String>, k: BuildSystemKind) -> (r: bool)
    ensures
        r == has_marker(texts(names@), k),
{
    let mut i: usize = 0;
    while i < names.len()
        invariant
            i <= names@.len(),
            forall|j: int| 0 <= j < i ==> !marks(#[trigger] texts(names@)[j], k),
        decreases names@.len() - i,
    {
        if is_marker(names[i].as_str(), k) {
            assert(marks(texts(names@)[i as int], k));
            return true;
        }
        i = i + 1;
    }
    false
}

/// Whether the root listing holds a file named `name`.
pub fn tree_contains(names: &Vec<String>, name: &str) -> (r: bool)
    ensures
        r == texts(names@).contains(name@),
{
    let mut i: usize = 0;
    while i < names.len()
        invariant
            i <= names@.len(),
            forall|j: int| 0 <= j < i ==> texts(names@)[j] != name@,
        decreases names@.len() - i,
    {
        if same_text(names[i].as_str(), name) {
            assert(texts(names@)[i as int] == name@);
            return true;
        }
        i = i + 1;
    }
    false
}

/// The first listed name that matches `*.nimble`.
pub fn find_nimble_file(names: &Vec<String>) -> (r: Option<String>)
    ensures
        opt_text(r) == first_nimble(texts(names@)),
{
    let mut i: usize = 0;
    while i < names.len()
        invariant
            i <= names@.len(),
            first_nimble(texts(names@).subrange(0, i as int)) is None,
        decreases names@.len() - i,
    {
        assert(texts(names@).subrange(0, i + 1).drop_last() =~= texts(names@).subrange(0, i as int));
        if is_nimble_file(names[i].as_str()) {
            let found = owned(names[i].as_str());
            proof {
                lemma_first_nimble_prefix(texts(names@), i as int + 1);
            }
            return Some(found);
        }
        i = i + 1;
    }
    assert(texts(names@).subrange(0, names@.len() as int) =~= texts(names@));
    None
}

/// Once a prefix holds a `*.nimble` name, the whole listing's first one is that prefix's.
proof fn lemma_first_nimble_prefix(names: Seq<Seq<char>>, n: int)
    requires
        0 <= n <= names.len(),
        first_nimble(names.subrange(0, n)) is Some,
    ensures
        first_nimble(names) == first_nimble(names.subrange(0, n)),
    decreases names.len() - n,
{
    if n < names.len() {
        assert(names.subrange(0, n + 1).drop_last() =~= names.subrange(0, n));
        lemma_first_nimble_prefix(names, n + 1);
    } else {
        assert(names.subrange(0, n) =~= names);
    }
}

/// The marker file of `k` at the root, as `marker_file` says.
pub fn find_marker_file(names: &Vec<String>, k: BuildSystemKind) -> (r: Option<String>)
    ensures
        opt_text(r) == marker_file(texts(names@), k),
{
    let fixed = match k {
        BuildSystemKind::Make => {
            if tree_contains(names, "Makefile") {
                return Some(owned("Makefile"));
            } else if tree_contains(names, "makefile") {
                return Some(owned("makefile"));
            } else if tree_contains(names, "GNUMakefile") {
                return Some(owned("GNUMakefile"));
            } else {
                return None;
            }
        },
        BuildSystemKind::Nimble => {
            return find_nimble_file(names);
        },
        BuildSystemKind::Autotools => "configure",
        BuildSystemKind::Cargo => "Cargo.toml",
        BuildSystemKind::CMake => "CMakeLists.txt",
        BuildSystemKind::Meson => "meson.build",
        BuildSystemKind::Ninja => "build.ninja",
        BuildSystemKind::Stack => "stack.yaml",
    };
    if tree_contains(names, fixed) {
        Some(owned(fixed))
    } else {
        None
    }
}

/// The kind whose marker comes first in the fixed priority order.
pub fn scan_markers(names: &Vec<String>) -> (r: Option<BuildSystemKind>)
    ensures
        r == marker_kind(texts(names@)),
{
    let order = [
        BuildSystemKind::Make,
        BuildSystemKind::Autotools,
        BuildSystemKind::Cargo,
        BuildSystemKind::CMake,
        BuildSystemKind::Meson,
        BuildSystemKind::Ninja,
        BuildSystemKind::Nimble,
        BuildSystemKind::Stack,
    ];
    if tree_has_marker(names, order[0]) {
        Some(order[0])
    } else if tree_has_marker(names, order[1]) {
        Some(order[1])
    } else if tree_has_marker(names, order[2]) {
        Some(order[2])
    } else if tree_has_marker(names, order[3]) {
        Some(order[3])
    } else if tree_has_marker(names, order[4]) {
        Some(order[4])
    } else if tree_has_marker(names, order[5]) {
        Some(order[5])
    } else if tree_has_marker(names, order[6]) {
        Some(order[6])
    } else if tree_has_marker(names, order[7]) {
        Some(order[7])
    } else {
        None
    }
}

/// Classifies a source tree whose root holds `names`, with the override
/// manifest found there, if any. The plan's flags are the manifest's followed
/// by the caller's.
pub fn detect(
    names: &Vec<String>,
    manifest: &Option<OverrideConfig>,
    caller_flags: &Vec<String>,
    source_dir: &str,
) -> (r: Result<BuildPlan, DetectError>)
    ensures
        match r {
            Ok(p) => detected_kind(texts(names@), *manifest) is Some
                && p@ == plan_for(texts(names@), *manifest, texts(caller_flags@), source_dir@),
            Err(e) => detected_kind(texts(names@), *manifest) is None && e == DetectError::NoBuildSystem,
        },
{
    let named = match manifest {
        Some(c) => match &c.build_system {
            Some(s) => BuildSystemKind::from_name(s.as_str()),
            None => None,
        },
        None => None,
    };
    let from_manifest = named.is_some();
    let kind = match named {
        Some(k) => k,
        None => match scan_markers(names) {
            Some(k) => k,
            None => {
                return Err(DetectError::NoBuildSystem);
            },
        },
    };
    let mut flags: Vec<String> = match manifest {
        Some(c) => copy_all(&c.flags),
        None => Vec::new(),
    };
    assert(texts(flags@) == override_flags(*manifest)) by {
        if manifest is None {
            assert(texts(flags@) =~= Seq::<Seq<char>>::empty());
        }
    }
    push_all(&mut flags, caller_flags);
    let build_file = find_marker_file(names, kind);
    let plan = BuildPlan {
        kind,
        extra_flags: flags,
        source_dir: owned(source_dir),
        build_file,
        from_manifest,
    };
    Ok(plan)
}

/// A tree that holds exactly one marker file, which marks `k`, and that has
/// no usable override, is classified as `k`.
pub proof fn single_marker_decides(names: Seq<Seq<char>>, m: Option<OverrideConfig>, i: int, k: BuildSystemKind)
    requires
        0 <= i < names.len(),
        marks(names[i], k),
        override_kind(m) is None,
        forall|j: int, kk: BuildSystemKind| 0 <= j < names.len() && #[trigger] marks(names[j], kk) ==> j == i,
    ensures
        detected_kind(names, m) == Some(k),
{
    assert(has_marker(names, k));
    assert forall|kk: BuildSystemKind| kk != k implies !has_marker(names, kk) by {
        if has_marker(names, kk) {
            let j = choose|j: int| 0 <= j < names.len() && marks(#[trigger] names[j], kk);
            assert(j == i);
            marks_at_most_one_kind(names[i], k, kk);
        }
    }
}

/// An override manifest that names a supported kind decides the kind,
/// whatever marker files the tree holds.
pub proof fn override_decides(names: Seq<Seq<char>>, m: Option<OverrideConfig>, k: BuildSystemKind)
    requires
        override_kind(m) == Some(k),
    ensures
        detected_kind(names, m) == Some(k),
{
}

/// A tree that holds a makefile and a `Cargo.toml`, with no usable override,
/// is built with make.
pub proof fn makefile_before_cargo(names: Seq<Seq<char>>, m: Option<OverrideConfig>, i: int)
    requires
        0 <= i < names.len(),
        is_makefile_name(names[i]),
        names.contains("Cargo.toml"@),
        override_kind(m) is None,
    ensures
        detected_kind(names, m) == Some(BuildSystemKind::Make),
{
    assert(marks(names[i], BuildSystemKind::Make));
}

/// Without a usable override and without any marker file, no kind is detected.
pub proof fn no_marker_no_kind(names: Seq<Seq<char>>, m: Option<OverrideConfig>)
    requires
        override_kind(m) is None,
        forall|j: int, kk: BuildSystemKind| 0 <= j < names.len() ==> !#[trigger] marks(names[j], kk),
    ensures
        detected_kind(names, m) is None,
{
}

/// Which markers a tree has depends on the set of names at its root, not on
/// the order in which they are listed.
proof fn lemma_markers_follow_set(n1: Seq<Seq<char>>, n2: Seq<Seq<char>>, k: BuildSystemKind)
    requires
        n1.to_set() == n2.to_set(),
    ensures
        has_marker(n1, k) == has_marker(n2, k),
{
    if has_marker(n1, k) {
        let i = choose|i: int| 0 <= i < n1.len() && marks(#[trigger] n1[i], k);
        assert(n1.to_set().contains(n1[i]));
        assert(n2.contains(n1[i]));
    }
    if has_marker(n2, k) {
        let i = choose|i: int| 0 <= i < n2.len() && marks(#[trigger] n2[i], k);
        assert(n2.to_set().contains(n2[i]));
        assert(n1.contains(n2[i]));
    }
}

/// The detected kind depends only on the set of names at the root of the
/// tree: listing the same files in another order gives the same kind.
pub proof fn detection_ignores_listing_order(n1: Seq<Seq<char>>, n2: Seq<Seq<char>>, m: Option<OverrideConfig>)
    requires
        n1.to_set() == n2.to_set(),
    ensures
        detected_kind(n1, m) == detected_kind(n2, m),
{
    lemma_markers_follow_set(n1, n2, BuildSystemKind::Make);
    lemma_markers_follow_set(n1, n2, BuildSystemKind::Autotools);
    lemma_markers_follow_set(n1, n2, BuildSystemKind::Cargo);
    lemma_markers_follow_set(n1, n2, BuildSystemKind::CMake);
    lemma_markers_follow_set(n1, n2, BuildSystemKind::Meson);
    lemma_markers_follow_set(n1, n2, BuildSystemKind::Ninja);
    lemma_markers_follow_set(n1, n2, BuildSystemKind::Nimble);
    lemma_markers_follow_set(n1, n2, BuildSystemKind::Stack);
}

/// Detecting twice on the same tree, with the same manifest and flags, gives
/// the same plan; the root may even be listed in another order, except that
/// for Nimble the displayed `*.nimble` file is the first one listed.
pub proof fn detection_is_repeatable(
    n1: Seq<Seq<char>>,
    n2: Seq<Seq<char>>,
    m: Option<OverrideConfig>,
    caller_flags: Seq<Seq<char>>,
    source_dir: Seq<char>,
)
    requires
        n1.to_set() == n2.to_set(),
        detected_kind(n1, m) is Some,
        detected_kind(n1, m) != Some(BuildSystemKind::Nimble) || n1 == n2,
    ensures
        detected_kind(n2, m) == detected_kind(n1, m),
        plan_for(n1, m, caller_flags, source_dir) == plan_for(n2, m, caller_flags, source_dir),
{
    detection_ignores_listing_order(n1, n2, m);
    assert forall|x: Seq<char>| n1.contains(x) == n2.contains(x) by {
        assert(n1.to_set().contains(x) == n1.contains(x));
        assert(n2.to_set().contains(x) == n2.contains(x));
    }
    assert(n1.contains("Makefile"@) == n2.contains("Makefile"@));
}

} // verus!
