//! Readers of the two manifests the installer looks into: the override
//! manifest (JSON) and, for Cargo projects, `Cargo.toml`.
use vstd::prelude::*;

use crate::detect::{DetectError, OverrideConfig, opt_text};
use crate::doc::{Node, find_member, node_text, list_texts, member, text_of, items_of, item_texts};
use crate::text::{texts, owned};

verus! {

#[verifier::external_type_specification]
#[verifier::external_body]
pub struct ExJsonValue(serde_json::Value);

#[verifier::external_type_specification]
#[verifier::external_body]
pub struct ExTomlValue(toml::Value);

/// The document serde_json reads from `text`, as plain values; nothing where
/// the text is not JSON.
pub uninterp spec fn json_doc(text: Seq<char>) -> Option<Node>;

/// The top-level table toml reads from `text`, as plain values; nothing
/// where the text is not TOML.
pub uninterp spec fn toml_doc(text: Seq<char>) -> Option<Node>;

/// Relies on serde_json::from_str into serde_json::Value, whose result
/// depends on the text alone; the value is carried over variant by variant.
#[verifier::external_body]
fn parse_json(text: &str) -> (r: Option<Node>)
    ensures
        r == json_doc(text@),
{
    serde_json::from_str::<serde_json::Value>(text).ok().map(json_node)
}

/// Carries a serde_json value over into a `Node`: strings, arrays and
/// objects one for one, every other variant as `Other`.
#[verifier::external_body]
fn json_node(v: serde_json::Value) -> Node {
    match v {
        serde_json::Value::String(s) => Node::Text(s),
        serde_json::Value::Array(a) => Node::List(a.into_iter().map(json_node).collect()),
        serde_json::Value::Object(m) => Node::Table(m.into_iter().map(|(k, x)| (k, json_node(x))).collect()),
        _ => Node::Other,
    }
}

/// Relies on `str::parse` into toml::Table, whose result depends on the text
/// alone; the table is carried over as a `Node::Table`.
#[verifier::external_body]
fn parse_toml(text: &str) -> (r: Option<Node>)
    ensures
        r == toml_doc(text@),
        r is Some ==> r->Some_0 is Table,
{
    text.parse::<toml::Table>().ok().map(|t| toml_node(toml::Value::Table(t)))
}

/// Carries a toml value over into a `Node`: strings, arrays and tables one
/// for one, every other variant as `Other`.
#[verifier::external_body]
fn toml_node(v: toml::Value) -> Node {
    match v {
        toml::Value::String(s) => Node::Text(s),
        toml::Value::Array(a) => Node::List(a.into_iter().map(toml_node).collect()),
        toml::Value::Table(t) => Node::Table(t.into_iter().map(|(k, x)| (k, toml_node(x))).collect()),
        _ => Node::Other,
    }
}

/// The strings among a manifest's flag items, in order.
pub open spec fn present(items: Seq<Option<Seq<char>>>) -> Seq<Seq<char>>
    decreases items.len(),
{
    if items.len() == 0 {
        Seq::empty()
    } else {
        match items.last() {
            Some(s) => present(items.drop_last()).push(s),
            None => present(items.drop_last()),
        }
    }
}

/// Keeps the flag items that are strings (nothing for one that is not), in
/// order.
pub fn string_flags(items: &Vec<Option<String>>) -> (r: Vec<String>)
    ensures
        texts(r@) == present(opt_texts(items@)),
{
    let ghost all = opt_texts(items@);
    let mut r: Vec<String> = Vec::new();
    let mut i: usize = 0;
    while i < items.len()
        invariant
            i <= items@.len(),
            all == opt_texts(items@),
            texts(r@) == present(all.subrange(0, i as int)),
        decreases items@.len() - i,
    {
        assert(all.subrange(0, i + 1).drop_last() =~= all.subrange(0, i as int));
        assert(all.subrange(0, i + 1).last() == opt_text(items@[i as int]));
        if let Some(s) = &items[i] {
            let ghost before = r@;
            r.push(owned(s.as_str()));
            assert(texts(r@) =~= texts(before).push(s@));
        }
        i = i + 1;
    }
    assert(all.subrange(0, items@.len() as int) =~= all);
    r
}

/// Reads an override manifest: its `build_system` string, if it has one, and
/// the strings of its `flags` array, in order. Text that is not JSON is
/// rejected; it is never taken as an empty manifest.
pub fn parse_override(text: &str) -> (r: Result<OverrideConfig, DetectError>)
    ensures
        r is Ok == json_doc(text@) is Some,
        r is Err ==> r->Err_0 == DetectError::ManifestInvalid,
        r is Ok ==> opt_text(r->Ok_0.build_system) == text_of(member(json_doc(text@), "build_system"@)),
        r is Ok ==> texts(r->Ok_0.flags@) == present(item_texts(items_of(member(json_doc(text@), "flags"@)))),
{
    let doc = match parse_json(text) {
        Some(v) => v,
        None => {
            return Err(DetectError::ManifestInvalid);
        },
    };
    let build_system = node_text(find_member(&doc, "build_system"));
    let items = list_texts(find_member(&doc, "flags"));
    let flags = string_flags(&items);
    Ok(OverrideConfig { build_system, flags })
}

/// The name a Cargo project's binary gets: the first declared binary name,
/// else the package name.
pub open spec fn chosen_binary_name(bin_names: Seq<Option<Seq<char>>>, package_name: Option<Seq<char>>) -> Option<Seq<char>>
    decreases bin_names.len(),
{
    if bin_names.len() == 0 {
        package_name
    } else if bin_names[0] is Some {
        bin_names[0]
    } else {
        chosen_binary_name(bin_names.drop_first(), package_name)
    }
}

pub open spec fn opt_texts(v: Seq<Option<String>>) -> Seq<Option<Seq<char>>> {
    v.map_values(|o: Option<String>| opt_text(o))
}

/// Picks the binary name of a Cargo project from the names found on its
/// `[[bin]]` entries (nothing for an entry without a string name) and the
/// name of its package.
pub fn select_binary_name(bin_names: &Vec<Option<String>>, package_name: Option<String>) -> (r: Option<String>)
    ensures
        opt_text(r) == chosen_binary_name(opt_texts(bin_names@), opt_text(package_name)),
{
    let ghost all = opt_texts(bin_names@);
    assert(all.subrange(0, all.len() as int) =~= all);
    let mut i: usize = 0;
    while i < bin_names.len()
        invariant
            i <= bin_names@.len(),
            all == opt_texts(bin_names@),
            chosen_binary_name(all, opt_text(package_name))
                == chosen_binary_name(all.subrange(i as int, all.len() as int), opt_text(package_name)),
        decreases bin_names@.len() - i,
    {
        let ghost rest = all.subrange(i as int, all.len() as int);
        assert(rest.drop_first() =~= all.subrange(i + 1, all.len() as int));
        assert(rest[0] == opt_text(bin_names@[i as int]));
        match &bin_names[i] {
            Some(n) => {
                return Some(owned(n.as_str()));
            },
            None => {},
        }
        i = i + 1;
    }
    assert(all.subrange(i as int, all.len() as int) =~= Seq::<Option<Seq<char>>>::empty());
    package_name
}

/// The names on a Cargo manifest's `[[bin]]` entries, one per entry: nothing
/// for an entry that is not a table or has no string `name`.
pub open spec fn bin_names(doc: Option<Node>) -> Seq<Option<Seq<char>>> {
    items_of(member(doc, "bin"@)).map_values(|e: Node| text_of(member(Some(e), "name"@)))
}

/// The string `name` of a Cargo manifest's `[package]` table.
pub open spec fn package_name(doc: Option<Node>) -> Option<Seq<char>> {
    text_of(member(member(doc, "package"@), "name"@))
}

/// The name of the binary that a Cargo project declares in `Cargo.toml`:
/// the first `[[bin]]` entry's name, else the package's name. Nothing where
/// the text is not TOML.
pub fn get_cargo_binary_name(manifest_text: &str) -> (r: Option<String>)
    ensures
        toml_doc(manifest_text@) is None ==> r is None,
        toml_doc(manifest_text@) is Some ==> opt_text(r) == chosen_binary_name(
            bin_names(toml_doc(manifest_text@)),
            package_name(toml_doc(manifest_text@)),
        ),
{
    let doc = match parse_toml(manifest_text) {
        Some(t) => t,
        None => {
            return None;
        },
    };
    let ghost entries = items_of(member(Some(doc), "bin"@));
    let mut names: Vec<Option<String>> = Vec::new();
    if let Some(Node::List(v)) = find_member(&doc, "bin") {
        let mut i: usize = 0;
        while i < v.len()
            invariant
                i <= v@.len(),
                entries == v@,
                opt_texts(names@) == entries.subrange(0, i as int).map_values(
                    |e: Node| text_of(member(Some(e), "name"@)),
                ),
            decreases v@.len() - i,
        {
            let ghost before = names@;
            names.push(node_text(find_member(&v[i], "name")));
            assert(opt_texts(names@) =~= opt_texts(before).push(text_of(member(Some(v@[i as int]), "name"@))));
            assert(entries.subrange(0, i + 1).map_values(|e: Node| text_of(member(Some(e), "name"@)))
                =~= entries.subrange(0, i as int).map_values(|e: Node| text_of(member(Some(e), "name"@))).push(
                text_of(member(Some(v@[i as int]), "name"@)),
            ));
            i = i + 1;
        }
        assert(entries.subrange(0, v@.len() as int) =~= entries);
    } else {
        assert(opt_texts(names@) =~= bin_names(Some(doc)));
    }
    let package = match find_member(&doc, "package") {
        Some(p) => node_text(find_member(p, "name")),
        None => None,
    };
    select_binary_name(&names, package)
}

} // verus!
