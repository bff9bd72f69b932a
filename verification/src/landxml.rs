//! Importing a LandXML pipe network: which pipes can be connected to the
//! imported structures, and what the import reports.
//!
//! Structures and pipes refer to each other by name. A pipe is drawn when
//! both of its end names belong to imported structures; when two structures
//! share a name, the later one is the one pipes attach to.

use vstd::prelude::*;

use crate::text::{append, append_str, chars_of, dec, decimal, string_of};

verus! {

/// A pipe of the LandXML network joined to two imported structures.
pub struct NamedLink {
    /// Position of the pipe in the network's pipe list.
    pub pipe: usize,
    /// Positions of its start and end structures in the structure list.
    pub from: usize,
    pub to: usize,
}

/// Position of the last structure called `name`.
pub open spec fn last_named(names: Seq<Seq<char>>, name: Seq<char>) -> Option<int>
    decreases names.len(),
{
    if names.len() == 0 {
        None
    } else if names.last() == name {
        Some(names.len() - 1)
    } else {
        last_named(names.drop_last(), name)
    }
}

pub open spec fn name_texts(v: Seq<String>) -> Seq<Seq<char>> {
    v.map_values(|s: String| s@)
}

/// The pipes that connect, in pipe order, each with its end structures.
pub open spec fn links_of(names: Seq<Seq<char>>, ends: Seq<(Seq<char>, Seq<char>)>) -> Seq<(int, int, int)>
    decreases ends.len(),
{
    if ends.len() == 0 {
        seq![]
    } else {
        let before = links_of(names, ends.drop_last());
        let k = ends.len() - 1;
        match (last_named(names, ends[k].0), last_named(names, ends[k].1)) {
            (Some(a), Some(b)) => before.push((k, a, b)),
            _ => before,
        }
    }
}

pub open spec fn end_texts(v: Seq<(String, String)>) -> Seq<(Seq<char>, Seq<char>)> {
    v.map_values(|p: (String, String)| (p.0@, p.1@))
}

pub open spec fn link_triples(v: Seq<NamedLink>) -> Seq<(int, int, int)> {
    v.map_values(|l: NamedLink| (l.pipe as int, l.from as int, l.to as int))
}

fn find_last_named(names: &Vec<String>, name: &String) -> (r: Option<usize>)
    ensures
        match r {
            Some(i) => i < names.len() && last_named(name_texts(names@), name@) == Some(i as int),
            None => last_named(name_texts(names@), name@) is None,
        },
{
    let target = chars_of(name.as_str());
    let mut i: usize = names.len();
    assert(name_texts(names@).take(i as int) =~= name_texts(names@));
    while i > 0
        invariant
            i <= names.len(),
            target@ == name@,
            last_named(name_texts(names@), name@) == last_named(name_texts(names@).take(i as int), name@),
        decreases i,
    {
        let ghost pre = name_texts(names@).take(i as int);
        assert(pre.drop_last() =~= name_texts(names@).take(i - 1));
        let candidate = chars_of(names[i - 1].as_str());
        if crate::text::chars_eq(&candidate, &target) {
            assert(pre.last() == name@);
            return Some(i - 1);
        }
        i = i - 1;
    }
    None
}

/// The pipes to draw: each pipe whose start and end names both name an
/// imported structure (the last structure of that name), in pipe order.
pub fn landxml_links(names: &Vec<String>, ends: &Vec<(String, String)>) -> (r: Vec<NamedLink>)
    ensures
        link_triples(r@) == links_of(name_texts(names@), end_texts(ends@)),
        forall|i: int| 0 <= i < r.len() ==> #[trigger] r@[i].from < names.len() && r@[i].to < names.len()
            && r@[i].pipe < ends.len(),
{
    let mut out: Vec<NamedLink> = Vec::new();
    let mut k: usize = 0;
    assert(end_texts(ends@).take(0) =~= Seq::<(Seq<char>, Seq<char>)>::empty());
    assert(link_triples(out@) =~= Seq::<(int, int, int)>::empty());
    while k < ends.len()
        invariant
            k <= ends.len(),
            link_triples(out@) == links_of(name_texts(names@), end_texts(ends@).take(k as int)),
            forall|i: int| 0 <= i < out.len() ==> #[trigger] out@[i].from < names.len() && out@[i].to
                < names.len() && out@[i].pipe < k,
        decreases ends.len() - k,
    {
        let ghost cur = end_texts(ends@).take(k + 1);
        assert(cur.drop_last() =~= end_texts(ends@).take(k as int));
        assert(cur[k as int] == (ends@[k as int].0@, ends@[k as int].1@));
        let a = find_last_named(names, &ends[k].0);
        let b = find_last_named(names, &ends[k].1);
        match (a, b) {
            (Some(a), Some(b)) => {
                let ghost pre = out@;
                out.push(NamedLink { pipe: k, from: a, to: b });
                assert(link_triples(out@) =~= link_triples(pre).push((k as int, a as int, b as int)));
            },
            _ => {},
        }
        k = k + 1;
    }
    assert(end_texts(ends@).take(ends.len() as int) =~= end_texts(ends@));
    out
}

pub open spec fn msg_no_structures() -> Seq<char> {
    "LandXML: no structures to import"@
}

pub open spec fn msg_no_pipes() -> Seq<char> {
    "LandXML: structures imported but no pipes could be connected \u{2014} check StartStruct/EndStruct names."@
}

pub open spec fn msg_imported(network: Seq<char>, structures: nat, pipes: nat) -> Seq<char> {
    "Imported LandXML \""@ + network + "\": "@ + dec(structures) + " structure(s), "@ + dec(pipes)
        + " pipe(s)."@
}

/// What an import of network `network` reports: an error when it has no
/// structures, or when none of its pipes could be connected; otherwise how
/// many structures and pipes were drawn.
pub fn landxml_outcome(network: &str, structures: usize, pipes: usize) -> (r: Result<String, String>)
    ensures
        match r {
            Ok(m) => structures > 0 && pipes > 0 && m@ == msg_imported(
                network@,
                structures as nat,
                pipes as nat,
            ),
            Err(e) => if structures == 0 {
                e@ == msg_no_structures()
            } else {
                pipes == 0 && e@ == msg_no_pipes()
            },
        },
{
    if structures == 0 {
        return Err(string_of(&chars_of("LandXML: no structures to import")));
    }
    if pipes == 0 {
        return Err(
            string_of(
                &chars_of(
                    "LandXML: structures imported but no pipes could be connected \u{2014} check StartStruct/EndStruct names.",
                ),
            ),
        );
    }
    let mut v = chars_of("Imported LandXML \"");
    append_str(&mut v, network);
    append_str(&mut v, "\": ");
    let s = decimal(structures as u64);
    append(&mut v, &s);
    append_str(&mut v, " structure(s), ");
    let p = decimal(pipes as u64);
    append(&mut v, &p);
    append_str(&mut v, " pipe(s).");
    Ok(string_of(&v))
}

} // verus!
