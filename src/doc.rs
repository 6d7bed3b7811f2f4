//! A parsed configuration document as plain values: strings, lists and
//! tables, with everything else the readers here do not look at kept as `Other`.
use vstd::prelude::*;

use crate::detect::opt_text;
use crate::text::same_text;

verus! {

/// One value of a parsed document.
pub enum Node {
    Text(String),
    List(Vec<Node>),
    /// The entries of a table or object, in the document library's order.
    Table(Vec<(String, Node)>),
    Other,
}

/// The value under the first entry named `key`.
pub open spec fn lookup(es: Seq<(String, Node)>, key: Seq<char>) -> Option<Node>
    decreases es.len(),
{
    if es.len() == 0 {
        None
    } else if es[0].0@ == key {
        Some(es[0].1)
    } else {
        lookup(es.drop_first(), key)
    }
}

/// The member `key` of a table; nothing for any other value.
pub open spec fn member(n: Option<Node>, key: Seq<char>) -> Option<Node> {
    match n {
        Some(Node::Table(es)) => lookup(es@, key),
        _ => None,
    }
}

/// The string a value holds, if it is one.
pub open spec fn text_of(n: Option<Node>) -> Option<Seq<char>> {
    match n {
        Some(Node::Text(s)) => Some(s@),
        _ => None,
    }
}

/// The elements of a list; none for any other value.
pub open spec fn items_of(n: Option<Node>) -> Seq<Node> {
    match n {
        Some(Node::List(v)) => v@,
        _ => Seq::empty(),
    }
}

pub open spec fn as_opt(n: Option<&Node>) -> Option<Node> {
    match n {
        Some(x) => Some(*x),
        None => None,
    }
}

/// The member `key` of a table.
pub fn find_member<'a>(n: &'a Node, key: &str) -> (r: Option<&'a Node>)
    ensures
        as_opt(r) == member(Some(*n), key@),
{
    match n {
        Node::Table(es) => {
            assert(es@.subrange(0, es@.len() as int) =~= es@);
            let mut i: usize = 0;
            while i < es.len()
                invariant
                    i <= es@.len(),
                    member(Some(*n), key@) == lookup(es@, key@),
                    lookup(es@, key@) == lookup(es@.subrange(i as int, es@.len() as int), key@),
                decreases es@.len() - i,
            {
                assert(es@.subrange(i as int, es@.len() as int).drop_first() =~= es@.subrange(i + 1, es@.len() as int));
                assert(es@.subrange(i as int, es@.len() as int)[0] == es@[i as int]);
                let entry = &es[i];
                if same_text(entry.0.as_str(), key) {
                    return Some(&entry.1);
                }
                i = i + 1;
            }
            None
        },
        _ => None,
    }
}

/// An owned copy of the string a value holds, if it is one.
pub fn node_text(n: Option<&Node>) -> (r: Option<String>)
    ensures
        opt_text(r) == text_of(as_opt(n)),
{
    match n {
        Some(Node::Text(s)) => Some(crate::text::owned(s.as_str())),
        _ => None,
    }
}

/// The strings held by the elements of a list, one entry per element.
pub open spec fn item_texts(items: Seq<Node>) -> Seq<Option<Seq<char>>> {
    items.map_values(|x: Node| text_of(Some(x)))
}

/// For each element of a list, the string it holds, if it is one.
pub fn list_texts(n: Option<&Node>) -> (r: Vec<Option<String>>)
    ensures
        r@.map_values(|o: Option<String>| opt_text(o)) == item_texts(items_of(as_opt(n))),
{
    let mut r: Vec<Option<String>> = Vec::new();
    if let Some(Node::List(v)) = n {
        let mut i: usize = 0;
        while i < v.len()
            invariant
                i <= v@.len(),
                r@.map_values(|o: Option<String>| opt_text(o)) == item_texts(v@.subrange(0, i as int)),
            decreases v@.len() - i,
        {
            let ghost before = r@;
            r.push(node_text(Some(&v[i])));
            assert(r@.map_values(|o: Option<String>| opt_text(o)) =~= before.map_values(|o: Option<String>| opt_text(o)).push(text_of(Some(v@[i as int]))));
            assert(item_texts(v@.subrange(0, i + 1)) =~= item_texts(v@.subrange(0, i as int)).push(text_of(Some(v@[i as int]))));
            i = i + 1;
        }
        assert(v@.subrange(0, v@.len() as int) =~= v@);
    } else {
        assert(r@.map_values(|o: Option<String>| opt_text(o)) =~= item_texts(items_of(as_opt(n))));
    }
    r
}

} // verus!
