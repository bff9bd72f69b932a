//! Structure kinds and the connectivity of a network reconstructed from
//! drawing entities: structures become nodes `N1, N2, ...` in the order they
//! are met, pipes become links between the nodes whose entity handles their
//! XDATA names.

use vstd::prelude::*;

use std::collections::HashMap;

use crate::text::{append, append_str, chars_of, chars_eq_str, dec, decimal, string_of};

verus! {

broadcast use vstd::std_specs::hash::group_hash_axioms;

/// The kind of a drainage structure.
#[derive(Debug, Clone, Copy, PartialEq, Eq, Structural)]
pub enum NodeKind {
    Inlet,
    Junction,
    Outfall,
}

pub open spec fn kind_text(k: NodeKind) -> Seq<char> {
    match k {
        NodeKind::Inlet => "inlet"@,
        NodeKind::Junction => "junction"@,
        NodeKind::Outfall => "outfall"@,
    }
}

/// The name a structure kind is stored under in XDATA.
pub fn kind_str(k: NodeKind) -> (r: &'static str)
    ensures
        r@ == kind_text(k),
{
    match k {
        NodeKind::Inlet => "inlet",
        NodeKind::Junction => "junction",
        NodeKind::Outfall => "outfall",
    }
}

/// The kind stored in XDATA; anything unknown reads as an inlet.
pub open spec fn kind_of_text(s: Seq<char>) -> NodeKind {
    if s == "outfall"@ {
        NodeKind::Outfall
    } else if s == "junction"@ {
        NodeKind::Junction
    } else {
        NodeKind::Inlet
    }
}

pub fn parse_kind(s: &str) -> (r: NodeKind)
    ensures
        r == kind_of_text(s@),
{
    let v = chars_of(s);
    if chars_eq_str(&v, "outfall") {
        NodeKind::Outfall
    } else if chars_eq_str(&v, "junction") {
        NodeKind::Junction
    } else {
        NodeKind::Inlet
    }
}

/// Law: a kind written to XDATA reads back as the same kind.
pub proof fn law_kind_roundtrip(k: NodeKind)
    ensures
        kind_of_text(kind_text(k)) == k,
{
    reveal_strlit("inlet");
    reveal_strlit("junction");
    reveal_strlit("outfall");
    assert("inlet"@[0] != "outfall"@[0]);
    assert("inlet"@[0] != "junction"@[0]);
    assert("junction"@[0] != "outfall"@[0]);
}

/// Label of a picked structure.
pub fn kind_label(k: NodeKind) -> (r: &'static str)
    ensures
        r@ == match k {
            NodeKind::Inlet => "Inlet"@,
            NodeKind::Junction => "Junction"@,
            NodeKind::Outfall => "Outfall"@,
        },
{
    match k {
        NodeKind::Inlet => "Inlet",
        NodeKind::Junction => "Junction",
        NodeKind::Outfall => "Outfall",
    }
}

/// A pipe between two nodes, `source` being its place among the tagged pipes.
pub struct Link {
    pub id: String,
    pub from: String,
    pub to: String,
    pub source: usize,
}

/// The plain content of a [`Link`].
pub struct LinkView {
    pub id: Seq<char>,
    pub from: Seq<char>,
    pub to: Seq<char>,
    pub source: int,
}

impl View for Link {
    type V = LinkView;

    open spec fn view(&self) -> LinkView {
        LinkView { id: self.id@, from: self.from@, to: self.to@, source: self.source as int }
    }
}

/// Node ids and the links between them.
pub struct Topology {
    pub node_ids: Vec<String>,
    pub links: Vec<Link>,
}

/// Id of the `i`-th structure (from 0): `N1`, `N2`, ...
pub open spec fn node_id(i: int) -> Seq<char> {
    seq!['N'] + dec((i + 1) as nat)
}

/// Id of the `k`-th tagged pipe (from 0): `P1`, `P2`, ...
pub open spec fn pipe_id(k: int) -> Seq<char> {
    seq!['P'] + dec((k + 1) as nat)
}

/// The last structure carrying handle `h` (a later structure with the same
/// handle takes its place).
pub open spec fn last_with_handle(hs: Seq<u64>, h: u64) -> Option<int>
    decreases hs.len(),
{
    if hs.len() == 0 {
        None
    } else if hs.last() == h {
        Some(hs.len() - 1)
    } else {
        last_with_handle(hs.drop_last(), h)
    }
}

/// The links that the tagged pipes `ends` (from- and to-handles) make between
/// the structures `hs`: a pipe both of whose ends name a structure.
pub open spec fn links_of(hs: Seq<u64>, ends: Seq<(u64, u64)>) -> Seq<LinkView>
    decreases ends.len(),
{
    if ends.len() == 0 {
        seq![]
    } else {
        let before = links_of(hs, ends.drop_last());
        let k = ends.len() - 1;
        match (last_with_handle(hs, ends.last().0), last_with_handle(hs, ends.last().1)) {
            (Some(f), Some(t)) => before.push(
                LinkView { id: pipe_id(k), from: node_id(f), to: node_id(t), source: k },
            ),
            _ => before,
        }
    }
}

pub open spec fn msg_no_structures() -> Seq<char> {
    "No storm-sewer structures in the drawing \u{2014} place Inlet/Junction/Outfall first."@
}

pub open spec fn msg_no_pipes(structures: nat, dangling: nat) -> Seq<char> {
    "No connected storm-sewer pipes ("@ + dec(structures) + " structure(s) found, "@ + dec(dangling)
        + " dangling pipe(s)). Use Pipe Run to connect structures."@
}


fn labelled(prefix: char, n: usize) -> (r: String)
    requires
        n < usize::MAX,
    ensures
        r@ == seq![prefix] + dec((n + 1) as nat),
{
    let mut v: Vec<char> = Vec::new();
    v.push(prefix);
    let d = decimal((n + 1) as u64);
    append(&mut v, &d);
    string_of(&v)
}

pub open spec fn links_text(v: Seq<Link>) -> Seq<LinkView> {
    v.map_values(|l: Link| l@)
}

/// The network's connectivity from the handles of its structures (in the
/// order met) and the from/to handles of its tagged pipes.
pub fn assemble_topology(struct_handles: &Vec<u64>, pipe_ends: &Vec<(u64, u64)>) -> (r: Result<
    Topology,
    String,
>)
    ensures
        match r {
            Ok(t) => {
                &&& struct_handles.len() > 0
                &&& t.node_ids.len() == struct_handles.len()
                &&& forall|i: int| 0 <= i < t.node_ids.len() ==> #[trigger] t.node_ids@[i]@ == node_id(i)
                &&& links_text(t.links@) == links_of(struct_handles@, pipe_ends@)
                &&& t.links.len() > 0
            },
            Err(e) => if struct_handles.len() == 0 {
                e@ == msg_no_structures()
            } else {
                &&& links_of(struct_handles@, pipe_ends@).len() == 0
                &&& e@ == msg_no_pipes(struct_handles.len() as nat, pipe_ends.len() as nat)
            },
        },
{
    if struct_handles.len() == 0 {
        return Err(
            "No storm-sewer structures in the drawing \u{2014} place Inlet/Junction/Outfall first.".to_string(),
        );
    }
    let mut node_ids: Vec<String> = Vec::new();
    let mut index_of: HashMap<u64, usize> = HashMap::new();
    let mut i: usize = 0;
    while i < struct_handles.len()
        invariant
            i <= struct_handles.len(),
            node_ids.len() == i,
            forall|j: int| 0 <= j < i ==> #[trigger] node_ids@[j]@ == node_id(j),
            forall|h: u64| #[trigger] index_of@.contains_key(h) == (last_with_handle(struct_handles@.take(i as int), h) is Some),
            forall|h: u64| #[trigger] index_of@.contains_key(h) ==> index_of@[h] < i && last_with_handle(
                struct_handles@.take(i as int),
                h,
            ) == Some(index_of@[h] as int),
        decreases struct_handles.len() - i,
    {
        node_ids.push(labelled('N', i));
        let ghost pre = struct_handles@.take(i as int);
        assert(struct_handles@.take(i + 1).drop_last() =~= pre);
        index_of.insert(struct_handles[i], i);
        i = i + 1;
    }
    assert(struct_handles@.take(i as int) =~= struct_handles@);
    let mut links: Vec<Link> = Vec::new();
    let mut k: usize = 0;
    while k < pipe_ends.len()
        invariant
            k <= pipe_ends.len(),
            links_text(links@) == links_of(struct_handles@, pipe_ends@.take(k as int)),
            links.len() <= k,
            forall|h: u64| #[trigger] index_of@.contains_key(h) == (last_with_handle(struct_handles@, h) is Some),
            forall|h: u64| #[trigger] index_of@.contains_key(h) ==> index_of@[h] < struct_handles.len()
                && last_with_handle(struct_handles@, h) == Some(index_of@[h] as int),
        decreases pipe_ends.len() - k,
    {
        let (f, t) = pipe_ends[k];
        assert(pipe_ends@.take(k + 1).drop_last() =~= pipe_ends@.take(k as int));
        let fi = index_of.get(&f);
        let ti = index_of.get(&t);
        match (fi, ti) {
            (Some(a), Some(b)) => {
                let (a, b) = (*a, *b);
                links.push(Link { id: labelled('P', k), from: labelled('N', a), to: labelled('N', b), source: k });
                assert(links_text(links@) =~= links_of(struct_handles@, pipe_ends@.take(k + 1)));
            },
            _ => {},
        }
        k = k + 1;
    }
    assert(pipe_ends@.take(pipe_ends.len() as int) =~= pipe_ends@);
    if links.len() == 0 {
        let mut v: Vec<char> = Vec::new();
        append_str(&mut v, "No connected storm-sewer pipes (");
        let a = decimal(struct_handles.len() as u64);
        append(&mut v, &a);
        append_str(&mut v, " structure(s) found, ");
        let b = decimal(pipe_ends.len() as u64);
        append(&mut v, &b);
        append_str(&mut v, " dangling pipe(s)). Use Pipe Run to connect structures.");
        return Err(string_of(&v));
    }
    Ok(Topology { node_ids, links })
}

} // verus!
