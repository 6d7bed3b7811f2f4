//! The closed set of supported build systems and what marks each in a source tree.
use vstd::prelude::*;

use crate::text::{has_suffix, same_text, ends_with_text};

verus! {

/// A build system that the installer knows how to drive.
#[derive(Clone, Copy, Debug, PartialEq, Eq, Structural)]
pub enum BuildSystemKind {
    Make,
    Autotools,
    Cargo,
    CMake,
    Meson,
    Ninja,
    Nimble,
    Stack,
}

/// The kind named by `s` in an override manifest, if `s` names one.
pub open spec fn kind_named(s: Seq<char>) -> Option<BuildSystemKind> {
    if s == "make"@ {
        Some(BuildSystemKind::Make)
    } else if s == "autotools"@ {
        Some(BuildSystemKind::Autotools)
    } else if s == "cargo"@ {
        Some(BuildSystemKind::Cargo)
    } else if s == "cmake"@ {
        Some(BuildSystemKind::CMake)
    } else if s == "meson"@ {
        Some(BuildSystemKind::Meson)
    } else if s == "ninja"@ {
        Some(BuildSystemKind::Ninja)
    } else if s == "nimble"@ {
        Some(BuildSystemKind::Nimble)
    } else if s == "stack"@ {
        Some(BuildSystemKind::Stack)
    } else {
        None
    }
}

/// Whether a file name is one of the names make reads by default.
pub open spec fn is_makefile_name(s: Seq<char>) -> bool {
    s == "Makefile"@ || s == "makefile"@ || s == "GNUMakefile"@
}

/// Whether a file name matches `*.nimble`.
pub open spec fn is_nimble_name(s: Seq<char>) -> bool {
    has_suffix(s, ".nimble"@) && s.len() > ".nimble"@.len()
}

/// Whether a file of this name at the root of a source tree marks `k`.
pub open spec fn marks(name: Seq<char>, k: BuildSystemKind) -> bool {
    match k {
        BuildSystemKind::Make => is_makefile_name(name),
        BuildSystemKind::Autotools => name == "configure"@,
        BuildSystemKind::Cargo => name == "Cargo.toml"@,
        BuildSystemKind::CMake => name == "CMakeLists.txt"@,
        BuildSystemKind::Meson => name == "meson.build"@,
        BuildSystemKind::Ninja => name == "build.ninja"@,
        BuildSystemKind::Nimble => is_nimble_name(name),
        BuildSystemKind::Stack => name == "stack.yaml"@,
    }
}

/// Whether a tree whose root holds `names` has a marker of `k`.
pub open spec fn has_marker(names: Seq<Seq<char>>, k: BuildSystemKind) -> bool {
    exists|i: int| 0 <= i < names.len() && marks(#[trigger] names[i], k)
}

impl BuildSystemKind {
    /// The name of this kind in an override manifest.
    pub open spec fn spec_name(self) -> Seq<char> {
        match self {
            BuildSystemKind::Make => "make"@,
            BuildSystemKind::Autotools => "autotools"@,
            BuildSystemKind::Cargo => "cargo"@,
            BuildSystemKind::CMake => "cmake"@,
            BuildSystemKind::Meson => "meson"@,
            BuildSystemKind::Ninja => "ninja"@,
            BuildSystemKind::Nimble => "nimble"@,
            BuildSystemKind::Stack => "stack"@,
        }
    }

    /// The label shown to the operator for this kind.
    pub open spec fn spec_label(self) -> Seq<char> {
        match self {
            BuildSystemKind::Make => "Make"@,
            BuildSystemKind::Autotools => "Autotools"@,
            BuildSystemKind::Cargo => "Cargo"@,
            BuildSystemKind::CMake => "CMake"@,
            BuildSystemKind::Meson => "Meson"@,
            BuildSystemKind::Ninja => "Ninja"@,
            BuildSystemKind::Nimble => "Nimble"@,
            BuildSystemKind::Stack => "Stack"@,
        }
    }

    /// The name of this kind in an override manifest.
    pub fn name(&self) -> (r: &'static str)
        ensures
            r@ == self.spec_name(),
    {
        match self {
            BuildSystemKind::Make => "make",
            BuildSystemKind::Autotools => "autotools",
            BuildSystemKind::Cargo => "cargo",
            BuildSystemKind::CMake => "cmake",
            BuildSystemKind::Meson => "meson",
            BuildSystemKind::Ninja => "ninja",
            BuildSystemKind::Nimble => "nimble",
            BuildSystemKind::Stack => "stack",
        }
    }

    /// The label shown to the operator for this kind.
    pub fn label(&self) -> (r: &'static str)
        ensures
            r@ == self.spec_label(),
    {
        match self {
            BuildSystemKind::Make => "Make",
            BuildSystemKind::Autotools => "Autotools",
            BuildSystemKind::Cargo => "Cargo",
            BuildSystemKind::CMake => "CMake",
            BuildSystemKind::Meson => "Meson",
            BuildSystemKind::Ninja => "Ninja",
            BuildSystemKind::Nimble => "Nimble",
            BuildSystemKind::Stack => "Stack",
        }
    }

    /// The kind that `s` names, if any.
    pub fn from_name(s: &str) -> (r: Option<BuildSystemKind>)
        ensures
            r == kind_named(s@),
    {
        if same_text(s, "make") {
            Some(BuildSystemKind::Make)
        } else if same_text(s, "autotools") {
            Some(BuildSystemKind::Autotools)
        } else if same_text(s, "cargo") {
            Some(BuildSystemKind::Cargo)
        } else if same_text(s, "cmake") {
            Some(BuildSystemKind::CMake)
        } else if same_text(s, "meson") {
            Some(BuildSystemKind::Meson)
        } else if same_text(s, "ninja") {
            Some(BuildSystemKind::Ninja)
        } else if same_text(s, "nimble") {
            Some(BuildSystemKind::Nimble)
        } else if same_text(s, "stack") {
            Some(BuildSystemKind::Stack)
        } else {
            None
        }
    }
}

/// Whether `name` is one of the names make reads by default.
pub fn is_makefile(name: &str) -> (r: bool)
    ensures
        r == is_makefile_name(name@),
{
    same_text(name, "Makefile") || same_text(name, "makefile") || same_text(name, "GNUMakefile")
}

/// Whether `name` matches `*.nimble`.
pub fn is_nimble_file(name: &str) -> (r: bool)
    ensures
        r == is_nimble_name(name@),
{
    proof {
        reveal_strlit(".nimble");
    }
    ends_with_text(name, ".nimble") && name.unicode_len() > 7
}

/// Whether a file named `name` at the root of a source tree marks `k`.
pub fn is_marker(name: &str, k: BuildSystemKind) -> (r: bool)
    ensures
        r == marks(name@, k),
{
    match k {
        BuildSystemKind::Make => is_makefile(name),
        BuildSystemKind::Autotools => same_text(name, "configure"),
        BuildSystemKind::Cargo => same_text(name, "Cargo.toml"),
        BuildSystemKind::CMake => same_text(name, "CMakeLists.txt"),
        BuildSystemKind::Meson => same_text(name, "meson.build"),
        BuildSystemKind::Ninja => same_text(name, "build.ninja"),
        BuildSystemKind::Nimble => is_nimble_file(name),
        BuildSystemKind::Stack => same_text(name, "stack.yaml"),
    }
}

/// No file name marks two different kinds.
pub proof fn marks_at_most_one_kind(name: Seq<char>, k1: BuildSystemKind, k2: BuildSystemKind)
    requires
        marks(name, k1),
        marks(name, k2),
    ensures
        k1 == k2,
{
    reveal_strlit("Makefile");
    reveal_strlit("makefile");
    reveal_strlit("GNUMakefile");
    reveal_strlit("configure");
    reveal_strlit("Cargo.toml");
    reveal_strlit("CMakeLists.txt");
    reveal_strlit("meson.build");
    reveal_strlit("build.ninja");
    reveal_strlit("stack.yaml");
    reveal_strlit(".nimble");
    assert("Makefile"@[0] == 'M' && "Makefile"@[1] == 'a');
    assert("makefile"@[0] == 'm' && "makefile"@[1] == 'a');
    assert("GNUMakefile"@[0] == 'G' && "GNUMakefile"@[4] == 'a');
    assert("configure"@[0] == 'c' && "configure"@[2] == 'n');
    assert("Cargo.toml"@[0] == 'C' && "Cargo.toml"@[3] == 'g');
    assert("CMakeLists.txt"@[0] == 'C' && "CMakeLists.txt"@[7] == 's');
    assert("meson.build"@[0] == 'm' && "meson.build"@[4] == 'n');
    assert("build.ninja"@[0] == 'b' && "build.ninja"@[4] == 'd');
    assert("stack.yaml"@[0] == 's' && "stack.yaml"@[3] == 'c');
    assert(".nimble"@[0] == '.');
    if k1 != k2 {
        if k1 == BuildSystemKind::Nimble || k2 == BuildSystemKind::Nimble {
            let n = name.len();
            let tail = name.subrange(n - 7, n as int);
            assert(tail == ".nimble"@);
            assert(tail[0] == name[n - 7]);
            assert(name[n - 7] == '.');
        }
    }
}
} // verus!
