//! The artifact locator: where, for each build system, the built executable
//! is looked for.
use vstd::prelude::*;

use crate::kind::BuildSystemKind;
use crate::text::{texts, join, owned, join_path, push_text, same_text};

verus! {

/// Where to look for the built executable.
pub enum Lookup {
    /// The first of these paths that exists.
    FirstExisting(Vec<String>),
    /// The first file named `name` met in a depth-first walk of `dir`.
    SearchUnder { dir: String, name: String },
}

pub enum LookupView {
    FirstExisting(Seq<Seq<char>>),
    SearchUnder { dir: Seq<char>, name: Seq<char> },
}

impl View for Lookup {
    type V = LookupView;

    open spec fn view(&self) -> LookupView {
        match self {
            Lookup::FirstExisting(v) => LookupView::FirstExisting(texts(v@)),
            Lookup::SearchUnder { dir, name } => LookupView::SearchUnder { dir: dir@, name: name@ },
        }
    }
}

/// The name a Cargo artifact is looked for under: the declared one, else the
/// package's own name.
pub open spec fn cargo_artifact_name(repo: Seq<char>, declared: Option<Seq<char>>) -> Seq<char> {
    match declared {
        Some(n) => n,
        None => repo,
    }
}

/// Where the artifact of package `repo`, built by `kind` in `dir`, is looked for.
pub open spec fn lookup_for(kind: BuildSystemKind, dir: Seq<char>, repo: Seq<char>, declared: Option<Seq<char>>) -> LookupView {
    match kind {
        BuildSystemKind::Cargo => {
            let n = cargo_artifact_name(repo, declared);
            LookupView::FirstExisting(seq![join(join(dir, "target/release"@), n), join(join(dir, "target/debug"@), n)])
        },
        BuildSystemKind::CMake => LookupView::FirstExisting(seq![join(join(dir, "build"@), repo)]),
        BuildSystemKind::Meson => LookupView::SearchUnder { dir: join(dir, "build"@), name: repo },
        BuildSystemKind::Stack => LookupView::SearchUnder { dir: join(dir, "bin"@), name: repo },
        _ => LookupView::FirstExisting(seq![join(dir, repo)]),
    }
}

/// Where the artifact of package `repo`, built by `kind` in `build_dir`, is
/// looked for. `cargo_name` is the binary name declared in `Cargo.toml`, if any.
pub fn find_binary_path(build_dir: &str, repo: &str, kind: BuildSystemKind, cargo_name: &Option<String>) -> (r: Lookup)
    ensures
        r@ == lookup_for(kind, build_dir@, repo@, match cargo_name {
            Some(n) => Some(n@),
            None => None,
        }),
{
    let mut paths: Vec<String> = Vec::new();
    match kind {
        BuildSystemKind::Cargo => {
            let name = match cargo_name {
                Some(n) => n.as_str(),
                None => repo,
            };
            let release = join_path(join_path(build_dir, "target/release").as_str(), name);
            let debug = join_path(join_path(build_dir, "target/debug").as_str(), name);
            push_text(&mut paths, release.as_str());
            push_text(&mut paths, debug.as_str());
        },
        BuildSystemKind::CMake => {
            let p = join_path(join_path(build_dir, "build").as_str(), repo);
            push_text(&mut paths, p.as_str());
        },
        BuildSystemKind::Meson => {
            return Lookup::SearchUnder { dir: join_path(build_dir, "build"), name: owned(repo) };
        },
        BuildSystemKind::Stack => {
            return Lookup::SearchUnder { dir: join_path(build_dir, "bin"), name: owned(repo) };
        },
        _ => {
            let p = join_path(build_dir, repo);
            push_text(&mut paths, p.as_str());
        },
    }
    let r = Lookup::FirstExisting(paths);
    assert(r@ == lookup_for(kind, build_dir@, repo@, match cargo_name {
        Some(n) => Some(n@),
        None => None,
    })) by {
        if let LookupView::FirstExisting(v) = r@ {
            if let LookupView::FirstExisting(w) = lookup_for(kind, build_dir@, repo@, match cargo_name {
                Some(n) => Some(n@),
                None => None,
            }) {
                assert(v =~= w);
            }
        }
    }
    r
}

/// What a directory entry is, following symbolic links.
#[derive(Clone, Copy, Debug, PartialEq, Eq, Structural)]
pub enum EntryType {
    Directory,
    File,
    Other,
}

/// One entry of a directory listing.
pub struct DirEntryInfo {
    pub name: String,
    pub entry_type: EntryType,
}

/// One move of the depth-first search for an artifact.
pub enum Visit {
    /// Search this subdirectory; stop if the artifact is found there.
    Descend(String),
    /// This file is the artifact.
    Found(String),
}

pub enum VisitView {
    Descend(Seq<char>),
    Found(Seq<char>),
}

impl View for Visit {
    type V = VisitView;

    open spec fn view(&self) -> VisitView {
        match self {
            Visit::Descend(p) => VisitView::Descend(p@),
            Visit::Found(p) => VisitView::Found(p@),
        }
    }
}

pub open spec fn entry_views(v: Seq<DirEntryInfo>) -> Seq<(Seq<char>, EntryType)> {
    v.map_values(|e: DirEntryInfo| (e.name@, e.entry_type))
}

pub open spec fn visit_views(v: Seq<Visit>) -> Seq<VisitView> {
    v.map_values(|x: Visit| x@)
}

/// The move an entry of `dir` calls for: descend into a directory, stop at a
/// file named `target`, pass over anything else.
pub open spec fn visit_of(dir: Seq<char>, e: (Seq<char>, EntryType), target: Seq<char>) -> Option<VisitView> {
    match e.1 {
        EntryType::Directory => Some(VisitView::Descend(join(dir, e.0))),
        EntryType::File => if e.0 == target {
            Some(VisitView::Found(join(dir, e.0)))
        } else {
            None
        },
        EntryType::Other => None,
    }
}

/// The moves for a listing of `dir`, in listing order.
pub open spec fn visits(dir: Seq<char>, entries: Seq<(Seq<char>, EntryType)>, target: Seq<char>) -> Seq<VisitView>
    decreases entries.len(),
{
    if entries.len() == 0 {
        Seq::empty()
    } else {
        let rest = visits(dir, entries.drop_last(), target);
        match visit_of(dir, entries.last(), target) {
            Some(v) => rest.push(v),
            None => rest,
        }
    }
}

/// The moves that the depth-first search for a file named `target` makes in
/// `dir`, whose entries are `entries` in listing order: the caller takes them
/// in turn and stops at the first file found.
pub fn search_order(dir: &str, entries: &Vec<DirEntryInfo>, target: &str) -> (r: Vec<Visit>)
    ensures
        visit_views(r@) == visits(dir@, entry_views(entries@), target@),
{
    let ghost all = entry_views(entries@);
    let mut r: Vec<Visit> = Vec::new();
    let mut i: usize = 0;
    while i < entries.len()
        invariant
            i <= entries@.len(),
            all == entry_views(entries@),
            visit_views(r@) == visits(dir@, all.subrange(0, i as int), target@),
        decreases entries@.len() - i,
    {
        let e = &entries[i];
        assert(all.subrange(0, i + 1).drop_last() =~= all.subrange(0, i as int));
        assert(all.subrange(0, i + 1).last() == (e.name@, e.entry_type));
        let ghost before = r@;
        match e.entry_type {
            EntryType::Directory => {
                r.push(Visit::Descend(join_path(dir, e.name.as_str())));
                assert(visit_views(r@) =~= visit_views(before).push(r@.last()@));
            },
            EntryType::File => {
                if same_text(e.name.as_str(), target) {
                    r.push(Visit::Found(join_path(dir, e.name.as_str())));
                    assert(visit_views(r@) =~= visit_views(before).push(r@.last()@));
                }
            },
            EntryType::Other => {},
        }
        i = i + 1;
    }
    assert(all.subrange(0, entries@.len() as int) =~= all);
    r
}
} // verus!
