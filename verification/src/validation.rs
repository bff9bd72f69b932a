//! Lenient-parse warnings and errors before analysis: what the tagged
//! entities of a drawing say about the network's integrity.
//!
//! The numeric comparisons of a structure's elevations and runoff data are
//! made by the caller on the stored reals; the checks here collect them,
//! check pipe connectivity by entity handle, and word the report.

use vstd::prelude::*;

use std::collections::HashSet;

use crate::network::{kind_str, kind_text, NodeKind};
use crate::dates::lemma_dec_digits;
use crate::text::{append, append_str, dec, decimal, has_prefix, is_digit, string_of};

verus! {

broadcast use vstd::std_specs::hash::group_hash_axioms;

/// Warnings and errors found in the drawing.
#[derive(Debug)]
pub struct ValidationReport {
    pub warnings: Vec<String>,
    pub errors: Vec<String>,
}

/// The text of each message.
pub open spec fn texts(v: Seq<String>) -> Seq<Seq<char>> {
    v.map_values(|s: String| s@)
}

impl ValidationReport {
    /// A report with no findings.
    pub fn new() -> (r: Self)
        ensures
            r.warnings@.len() == 0,
            r.errors@.len() == 0,
    {
        ValidationReport { warnings: Vec::new(), errors: Vec::new() }
    }

    /// Analysis may go on: there are no errors.
    pub fn ok(&self) -> (r: bool)
        ensures
            r == (self.errors@.len() == 0),
    {
        self.errors.len() == 0
    }
}

/// What a structure entity's stored data says, as compared by the caller.
pub struct StructureFacts {
    pub kind: NodeKind,
    /// `rim <= invert`.
    pub rim_not_above_invert: bool,
    /// The rim and invert elevations, formatted with two decimals.
    pub rim_text: String,
    pub invert_text: String,
    /// `area <= 0`.
    pub area_not_positive: bool,
    /// `C <= 0 || C > 1`.
    pub c_unusual: bool,
    /// The runoff coefficient, formatted with two decimals.
    pub c_text: String,
}

/// What a pipe entity's stored data says, as compared by the caller.
pub struct PipeFacts {
    /// `diameter <= 0`.
    pub diameter_not_positive: bool,
    /// `n <= 0`.
    pub n_not_positive: bool,
    pub from: u64,
    pub to: u64,
}

/// One drawing entity, as far as the checks read it.
pub struct EntityFacts {
    pub handle: u64,
    /// A complete, well-formed structure record on a circle.
    pub structure: Option<StructureFacts>,
    /// A complete, well-formed pipe record on a line.
    pub pipe: Option<PipeFacts>,
    /// A complete, well-formed catchment record on a closed polyline.
    pub catchment_readable: bool,
    /// Which application records the entity carries at all.
    pub has_struct_record: bool,
    pub has_pipe_record: bool,
    pub has_catchment_record: bool,
}

pub open spec fn handle_prefix(h: u64) -> Seq<char> {
    "Handle "@ + dec(h as nat) + ": "@
}

/// Warnings that one entity raises in the first pass: the checks of a
/// structure, or the application records it carries that do not read
/// completely.
pub open spec fn entity_warnings(e: EntityFacts) -> Seq<Seq<char>> {
    let hp = handle_prefix(e.handle);
    match e.structure {
        Some(s) => {
            let rim = if s.rim_not_above_invert {
                seq![hp + "rim ("@ + s.rim_text@ + ") <= invert ("@ + s.invert_text@ + ")"@]
            } else {
                Seq::<Seq<char>>::empty()
            };
            let area = if s.kind != NodeKind::Outfall && s.area_not_positive {
                seq![hp + "zero contributing area on "@ + kind_text(s.kind)]
            } else {
                Seq::<Seq<char>>::empty()
            };
            let c = if s.kind != NodeKind::Outfall && s.c_unusual {
                seq![hp + "unusual runoff coefficient C="@ + s.c_text@]
            } else {
                Seq::<Seq<char>>::empty()
            };
            rim + area + c
        },
        None => {
            let st = if e.has_struct_record {
                seq![hp + "incomplete STORMSEWER_STRUCT XDATA"@]
            } else {
                Seq::<Seq<char>>::empty()
            };
            let pi = if e.has_pipe_record && e.pipe is None {
                seq![hp + "incomplete STORMSEWER_PIPE XDATA"@]
            } else {
                Seq::<Seq<char>>::empty()
            };
            let ca = if e.has_catchment_record && !e.catchment_readable {
                seq![hp + "incomplete STORMSEWER_CATCHMENT XDATA"@]
            } else {
                Seq::<Seq<char>>::empty()
            };
            st + pi + ca
        },
    }
}

/// Handles of the structures among `es`.
pub open spec fn structure_handles(es: Seq<EntityFacts>) -> Set<u64> {
    Set::new(|h: u64| exists|i: int| 0 <= i < es.len() && es[i].structure is Some && es[i].handle == h)
}

/// Findings that one pipe entity raises in the second pass, against the
/// structure handles `hs`.
pub open spec fn pipe_errors(e: EntityFacts) -> Seq<Seq<char>> {
    match e.pipe {
        Some(p) => if p.diameter_not_positive {
            seq![handle_prefix(e.handle) + "pipe diameter <= 0"@]
        } else {
            Seq::<Seq<char>>::empty()
        },
        None => Seq::<Seq<char>>::empty(),
    }
}

pub open spec fn pipe_warnings(e: EntityFacts, hs: Set<u64>) -> Seq<Seq<char>> {
    match e.pipe {
        Some(p) => {
            let hp = handle_prefix(e.handle);
            let n = if p.n_not_positive {
                seq![hp + "Manning n <= 0"@]
            } else {
                Seq::<Seq<char>>::empty()
            };
            let f = if !hs.contains(p.from) {
                seq![hp + "pipe references missing from-structure "@ + dec(p.from as nat)]
            } else {
                Seq::<Seq<char>>::empty()
            };
            let t = if !hs.contains(p.to) {
                seq![hp + "pipe references missing to-structure "@ + dec(p.to as nat)]
            } else {
                Seq::<Seq<char>>::empty()
            };
            n + f + t
        },
        None => Seq::<Seq<char>>::empty(),
    }
}

/// First-pass warnings of the entities `es`, in order.
pub open spec fn first_pass(es: Seq<EntityFacts>) -> Seq<Seq<char>>
    decreases es.len(),
{
    if es.len() == 0 {
        seq![]
    } else {
        first_pass(es.drop_last()) + entity_warnings(es.last())
    }
}

/// Second-pass warnings and errors of the entities `es` against `hs`.
pub open spec fn second_pass_warnings(es: Seq<EntityFacts>, hs: Set<u64>) -> Seq<Seq<char>>
    decreases es.len(),
{
    if es.len() == 0 {
        seq![]
    } else {
        second_pass_warnings(es.drop_last(), hs) + pipe_warnings(es.last(), hs)
    }
}

pub open spec fn second_pass_errors(es: Seq<EntityFacts>) -> Seq<Seq<char>>
    decreases es.len(),
{
    if es.len() == 0 {
        seq![]
    } else {
        second_pass_errors(es.drop_last()) + pipe_errors(es.last())
    }
}

pub open spec fn count_structures(es: Seq<EntityFacts>) -> nat
    decreases es.len(),
{
    if es.len() == 0 {
        0
    } else {
        count_structures(es.drop_last()) + if es.last().structure is Some { 1nat } else { 0nat }
    }
}

pub open spec fn count_pipes(es: Seq<EntityFacts>) -> nat
    decreases es.len(),
{
    if es.len() == 0 {
        0
    } else {
        count_pipes(es.drop_last()) + if es.last().pipe is Some { 1nat } else { 0nat }
    }
}

/// The warnings of a validation of `es`.
pub open spec fn validation_warnings(es: Seq<EntityFacts>) -> Seq<Seq<char>> {
    let tail = if count_structures(es) > 0 && count_pipes(es) == 0 {
        seq!["Structures found but no tagged pipes"@]
    } else {
        Seq::<Seq<char>>::empty()
    };
    first_pass(es) + second_pass_warnings(es, structure_handles(es)) + tail
}

/// The errors of a validation of `es`.
pub open spec fn validation_errors(es: Seq<EntityFacts>) -> Seq<Seq<char>> {
    let tail = if count_structures(es) == 0 {
        seq!["No storm-sewer structures in drawing"@]
    } else {
        Seq::<Seq<char>>::empty()
    };
    second_pass_errors(es) + tail
}

proof fn lemma_structure_handles_step(pre: Seq<EntityFacts>, e: EntityFacts)
    ensures
        structure_handles(pre.push(e)) == if e.structure is Some {
            structure_handles(pre).insert(e.handle)
        } else {
            structure_handles(pre)
        },
{
    let cur = pre.push(e);
    let want = if e.structure is Some {
        structure_handles(pre).insert(e.handle)
    } else {
        structure_handles(pre)
    };
    assert forall|h: u64| structure_handles(cur).contains(h) <==> want.contains(h) by {
        if structure_handles(cur).contains(h) {
            let i = choose|i: int| 0 <= i < cur.len() && cur[i].structure is Some && cur[i].handle == h;
            if i < pre.len() {
                assert(pre[i] == cur[i]);
            }
        }
        if structure_handles(pre).contains(h) {
            let i = choose|i: int| 0 <= i < pre.len() && pre[i].structure is Some && pre[i].handle == h;
            assert(cur[i] == pre[i]);
        }
        if e.structure is Some && h == e.handle {
            assert(cur[pre.len() as int] == e);
        }
    }
    assert(structure_handles(cur) =~= want);
}


fn handle_prefix_text(h: u64) -> (r: Vec<char>)
    ensures
        r@ == handle_prefix(h),
{
    let mut v: Vec<char> = Vec::new();
    append_str(&mut v, "Handle ");
    let d = decimal(h);
    append(&mut v, &d);
    append_str(&mut v, ": ");
    v
}

fn message(hp: &Vec<char>, parts: &str) -> (r: String)
    ensures
        r@ == hp@ + parts@,
{
    let mut v = hp.clone();
    assert(v@ == hp@);
    append_str(&mut v, parts);
    string_of(&v)
}

fn push_entity_warnings(e: &EntityFacts, out: &mut Vec<String>)
    ensures
        texts(final(out)@) == texts(old(out)@) + entity_warnings(*e),
{
    let ghost start = texts(out@);
    let hp = handle_prefix_text(e.handle);
    assert(hp@ == handle_prefix(e.handle));
    match &e.structure {
        Some(s) => {
            if s.rim_not_above_invert {
                let mut v = hp.clone();
                assert(v@ == hp@);
                append_str(&mut v, "rim (");
                append_str(&mut v, s.rim_text.as_str());
                append_str(&mut v, ") <= invert (");
                append_str(&mut v, s.invert_text.as_str());
                append_str(&mut v, ")");
                out.push(string_of(&v));
            }
            let ghost after_rim = texts(out@);
            if s.kind != NodeKind::Outfall && s.area_not_positive {
                let mut v = hp.clone();
                assert(v@ == hp@);
                append_str(&mut v, "zero contributing area on ");
                append_str(&mut v, kind_str(s.kind));
                out.push(string_of(&v));
            }
            let ghost after_area = texts(out@);
            if s.kind != NodeKind::Outfall && s.c_unusual {
                let mut v = hp.clone();
                assert(v@ == hp@);
                append_str(&mut v, "unusual runoff coefficient C=");
                append_str(&mut v, s.c_text.as_str());
                out.push(string_of(&v));
            }
            assert(texts(out@) =~= start + entity_warnings(*e));
        },
        None => {
            if e.has_struct_record {
                out.push(message(&hp, "incomplete STORMSEWER_STRUCT XDATA"));
            }
            if e.has_pipe_record && e.pipe.is_none() {
                out.push(message(&hp, "incomplete STORMSEWER_PIPE XDATA"));
            }
            if e.has_catchment_record && !e.catchment_readable {
                out.push(message(&hp, "incomplete STORMSEWER_CATCHMENT XDATA"));
            }
            assert(texts(out@) =~= start + entity_warnings(*e));
        },
    }
}


fn push_pipe_findings(e: &EntityFacts, hs: &HashSet<u64>, warnings: &mut Vec<String>, errors: &mut Vec<String>)
    ensures
        texts(final(warnings)@) == texts(old(warnings)@) + pipe_warnings(*e, hs@),
        texts(final(errors)@) == texts(old(errors)@) + pipe_errors(*e),
{
    let ghost w0 = texts(warnings@);
    let ghost e0 = texts(errors@);
    match &e.pipe {
        Some(p) => {
            let hp = handle_prefix_text(e.handle);
            if p.diameter_not_positive {
                errors.push(message(&hp, "pipe diameter <= 0"));
            }
            if p.n_not_positive {
                warnings.push(message(&hp, "Manning n <= 0"));
            }
            if !hs.contains(&p.from) {
                let mut v = hp.clone();
                assert(v@ == hp@);
                append_str(&mut v, "pipe references missing from-structure ");
                let d = decimal(p.from);
                append(&mut v, &d);
                warnings.push(string_of(&v));
            }
            if !hs.contains(&p.to) {
                let mut v = hp.clone();
                assert(v@ == hp@);
                append_str(&mut v, "pipe references missing to-structure ");
                let d = decimal(p.to);
                append(&mut v, &d);
                warnings.push(string_of(&v));
            }
            assert(texts(warnings@) =~= w0 + pipe_warnings(*e, hs@));
            assert(texts(errors@) =~= e0 + pipe_errors(*e));
        },
        None => {
            assert(texts(warnings@) =~= w0 + pipe_warnings(*e, hs@));
            assert(texts(errors@) =~= e0 + pipe_errors(*e));
        },
    }
}

/// Check the tagged entities of a drawing, in drawing order.
pub fn validate_entities(entities: &Vec<EntityFacts>) -> (r: ValidationReport)
    ensures
        texts(r.warnings@) == validation_warnings(entities@),
        texts(r.errors@) == validation_errors(entities@),
{
    let mut report = ValidationReport::new();
    let mut handles: HashSet<u64> = HashSet::new();
    let mut struct_count: usize = 0;
    let mut pipe_count: usize = 0;
    let mut i: usize = 0;
    assert(texts(report.warnings@) =~= first_pass(entities@.take(0)));
    assert(handles@ =~= structure_handles(entities@.take(0)));
    while i < entities.len()
        invariant
            i <= entities.len(),
            texts(report.warnings@) == first_pass(entities@.take(i as int)),
            report.errors@.len() == 0,
            struct_count == count_structures(entities@.take(i as int)),
            struct_count <= i,
            handles@ == structure_handles(entities@.take(i as int)),
        decreases entities.len() - i,
    {
        let e = &entities[i];
        let ghost pre = entities@.take(i as int);
        let ghost cur = entities@.take(i + 1);
        assert(cur.drop_last() =~= pre);
        assert(cur.last() == *e);
        push_entity_warnings(e, &mut report.warnings);
        if e.structure.is_some() {
            struct_count = struct_count + 1;
            handles.insert(e.handle);
        }
        i = i + 1;
        proof {
            lemma_structure_handles_step(pre, *e);
            assert(cur =~= pre.push(*e));
        }
    }
    assert(entities@.take(entities.len() as int) =~= entities@);
    let mut j: usize = 0;
    let ghost hs = handles@;
    assert(texts(report.warnings@) + second_pass_warnings(entities@.take(0), hs) =~= first_pass(entities@));
    while j < entities.len()
        invariant
            j <= entities.len(),
            hs == handles@,
            texts(report.warnings@) == first_pass(entities@) + second_pass_warnings(entities@.take(j as int), hs),
            texts(report.errors@) == second_pass_errors(entities@.take(j as int)),
            pipe_count == count_pipes(entities@.take(j as int)),
            pipe_count <= j,
        decreases entities.len() - j,
    {
        let e = &entities[j];
        let ghost cur = entities@.take(j + 1);
        assert(cur.drop_last() =~= entities@.take(j as int));
        assert(cur.last() == *e);
        push_pipe_findings(e, &handles, &mut report.warnings, &mut report.errors);
        if e.pipe.is_some() {
            pipe_count = pipe_count + 1;
        }
        j = j + 1;
        assert(texts(report.warnings@) =~= first_pass(entities@) + second_pass_warnings(entities@.take(j as int), hs));
    }
    if struct_count == 0 {
        report.errors.push("No storm-sewer structures in drawing".to_string());
    }
    if struct_count > 0 && pipe_count == 0 {
        report.warnings.push("Structures found but no tagged pipes".to_string());
    }
    assert(texts(report.warnings@) =~= validation_warnings(entities@));
    assert(texts(report.errors@) =~= validation_errors(entities@));
    report
}


proof fn lemma_hp_unique(h1: u64, h2: u64, m: Seq<char>)
    requires
        has_prefix(m, handle_prefix(h1)),
        has_prefix(m, handle_prefix(h2)),
    ensures
        h1 == h2,
{
    reveal_strlit("Handle ");
    reveal_strlit(": ");
    lemma_dec_digits(h1 as nat);
    lemma_dec_digits(h2 as nat);
    let d1 = dec(h1 as nat);
    let d2 = dec(h2 as nat);
    let n1 = d1.len() as int;
    let n2 = d2.len() as int;
    let p1 = handle_prefix(h1);
    let p2 = handle_prefix(h2);
    assert(p1.len() == 9 + d1.len());
    assert(p2.len() == 9 + d2.len());
    assert forall|k: int| 0 <= k < p1.len() implies m[k] == p1[k] by {
        assert(m.take(p1.len() as int)[k] == m[k]);
    }
    assert forall|k: int| 0 <= k < p2.len() implies m[k] == p2[k] by {
        assert(m.take(p2.len() as int)[k] == m[k]);
    }
    assert forall|k: int| 0 <= k < d1.len() implies p1[7 + k] == d1[k] by {}
    assert forall|k: int| 0 <= k < d2.len() implies p2[7 + k] == d2[k] by {}
    assert(p1[7 + n1] == ':');
    assert(p2[7 + n2] == ':');
    if d1.len() < d2.len() {
        assert(is_digit(d2[d1.len() as int]));
        assert(m[7 + n1] == p2[7 + n1]);
    } else if d2.len() < d1.len() {
        assert(is_digit(d1[d2.len() as int]));
        assert(m[7 + n2] == p1[7 + n2]);
    }
    assert(d1 =~= d2) by {
        assert forall|k: int| 0 <= k < d1.len() implies d1[k] == d2[k] by {
            assert(m[7 + k] == p1[7 + k]);
            assert(m[7 + k] == p2[7 + k]);
        }
    }
}

proof fn lemma_has_prefix_add(a: Seq<char>, b: Seq<char>)
    ensures
        has_prefix(a + b, a),
{
    assert((a + b).take(a.len() as int) =~= a);
}

/// Every first-pass warning of an entity starts with its handle, and what
/// follows is not a pipe finding.
proof fn lemma_entity_warning_shape(e: EntityFacts, m: Seq<char>)
    requires
        entity_warnings(e).contains(m),
    ensures
        has_prefix(m, handle_prefix(e.handle)),
        m.len() > handle_prefix(e.handle).len(),
        m[handle_prefix(e.handle).len() as int] != 'p',
{
    let hp = handle_prefix(e.handle);
    let l = hp.len() as int;
    reveal_strlit("rim (");
    reveal_strlit("zero contributing area on ");
    reveal_strlit("unusual runoff coefficient C=");
    reveal_strlit("incomplete STORMSEWER_STRUCT XDATA");
    reveal_strlit("incomplete STORMSEWER_PIPE XDATA");
    reveal_strlit("incomplete STORMSEWER_CATCHMENT XDATA");
    let w = entity_warnings(e);
    let k = choose|k: int| 0 <= k < w.len() && w[k] == m;
    let rest = m.skip(l);
    match e.structure {
        Some(st) => {
            let r1 = "rim ("@ + st.rim_text@ + ") <= invert ("@ + st.invert_text@ + ")"@;
            let r2 = "zero contributing area on "@ + kind_text(st.kind);
            let r3 = "unusual runoff coefficient C="@ + st.c_text@;
            assert(hp + "rim ("@ + st.rim_text@ + ") <= invert ("@ + st.invert_text@ + ")"@ =~= hp + r1);
            assert(hp + "zero contributing area on "@ + kind_text(st.kind) =~= hp + r2);
            assert(hp + "unusual runoff coefficient C="@ + st.c_text@ =~= hp + r3);
            assert(m == hp + r1 || m == hp + r2 || m == hp + r3);
            if m == hp + r1 {
                lemma_has_prefix_add(hp, r1);
                assert(m[l] == r1[0]);
            } else if m == hp + r2 {
                lemma_has_prefix_add(hp, r2);
                assert(m[l] == r2[0]);
            } else {
                lemma_has_prefix_add(hp, r3);
                assert(m[l] == r3[0]);
            }
        },
        None => {
            let a = "incomplete STORMSEWER_STRUCT XDATA"@;
            let b = "incomplete STORMSEWER_PIPE XDATA"@;
            let c = "incomplete STORMSEWER_CATCHMENT XDATA"@;
            assert(m == hp + a || m == hp + b || m == hp + c);
            if m == hp + a {
                lemma_has_prefix_add(hp, a);
                assert(m[l] == a[0]);
            } else if m == hp + b {
                lemma_has_prefix_add(hp, b);
                assert(m[l] == b[0]);
            } else {
                lemma_has_prefix_add(hp, c);
                assert(m[l] == c[0]);
            }
        },
    }
}

/// A pipe finding naming a missing structure at the end `word` of the pipe
/// comes from that pipe, names its own end, and stands only when that end
/// names no structure.
proof fn lemma_pipe_warning_end(e: EntityFacts, hs: Set<u64>, h: u64, t: u64, to_end: bool)
    requires
        e.pipe is Some,
        pipe_warnings(e, hs).contains(
            handle_prefix(h) + (if to_end {
                "pipe references missing to-structure "@
            } else {
                "pipe references missing from-structure "@
            }) + dec(t as nat),
        ),
    ensures
        h == e.handle,
        to_end ==> e.pipe->0.to == t && !hs.contains(t),
        !to_end ==> e.pipe->0.from == t && !hs.contains(t),
{
    reveal_strlit("Manning n <= 0");
    reveal_strlit("pipe references missing to-structure ");
    reveal_strlit("pipe references missing from-structure ");
    let p = e.pipe->0;
    let hp = handle_prefix(e.handle);
    let pt = "pipe references missing to-structure "@;
    let pf = "pipe references missing from-structure "@;
    let word = if to_end { pt } else { pf };
    let m = handle_prefix(h) + word + dec(t as nat);
    assert(m =~= handle_prefix(h) + (word + dec(t as nat)));
    lemma_has_prefix_add(handle_prefix(h), word + dec(t as nat));
    let mn = hp + "Manning n <= 0"@;
    let mf = hp + pf + dec(p.from as nat);
    let mt = hp + pt + dec(p.to as nat);
    assert(mf =~= hp + (pf + dec(p.from as nat)));
    assert(mt =~= hp + (pt + dec(p.to as nat)));
    assert(m == mn || m == mf || m == mt);
    lemma_has_prefix_add(hp, "Manning n <= 0"@);
    lemma_has_prefix_add(hp, pf + dec(p.from as nat));
    lemma_has_prefix_add(hp, pt + dec(p.to as nat));
    lemma_hp_unique(h, e.handle, m);
    let l = hp.len() as int;
    assert(m[l] == 'p');
    assert(m[l + 24] == word[24]);
    if m == mn {
        assert(mn[l] == 'M');
    } else if m == mf {
        assert(mf[l + 24] == 'f');
        assert(!to_end);
        assert(m.skip(l + 39) =~= dec(t as nat));
        assert(mf.skip(l + 39) =~= dec(p.from as nat));
        lemma_dec_digits(t as nat);
        lemma_dec_digits(p.from as nat);
        assert(!hs.contains(p.from));
    } else {
        assert(mt[l + 24] == 't');
        assert(to_end);
        assert(m.skip(l + 37) =~= dec(t as nat));
        assert(mt.skip(l + 37) =~= dec(p.to as nat));
        lemma_dec_digits(t as nat);
        lemma_dec_digits(p.to as nat);
        assert(!hs.contains(p.to));
    }
}

proof fn lemma_first_pass_mem(es: Seq<EntityFacts>, m: Seq<char>)
    requires
        first_pass(es).contains(m),
    ensures
        exists|j: int| 0 <= j < es.len() && entity_warnings(#[trigger] es[j]).contains(m),
    decreases es.len(),
{
    let pre = es.drop_last();
    let w = first_pass(es);
    let k = choose|k: int| 0 <= k < w.len() && w[k] == m;
    if k < first_pass(pre).len() {
        assert(first_pass(pre)[k] == m);
        lemma_first_pass_mem(pre, m);
        let j = choose|j: int| 0 <= j < pre.len() && entity_warnings(#[trigger] pre[j]).contains(m);
        assert(es[j] == pre[j]);
    } else {
        let last = entity_warnings(es.last());
        assert(last[k - first_pass(pre).len()] == m);
        assert(es[es.len() - 1] == es.last());
    }
}

proof fn lemma_second_pass_mem(es: Seq<EntityFacts>, hs: Set<u64>, m: Seq<char>)
    ensures
        second_pass_warnings(es, hs).contains(m) <==> exists|j: int|
            0 <= j < es.len() && pipe_warnings(#[trigger] es[j], hs).contains(m),
    decreases es.len(),
{
    if es.len() > 0 {
        let pre = es.drop_last();
        lemma_second_pass_mem(pre, hs, m);
        let w = second_pass_warnings(es, hs);
        let wp = second_pass_warnings(pre, hs);
        let last = pipe_warnings(es.last(), hs);
        assert(es[es.len() - 1] == es.last());
        if w.contains(m) {
            let k = choose|k: int| 0 <= k < w.len() && w[k] == m;
            if k < wp.len() {
                assert(wp[k] == m);
                let j = choose|j: int| 0 <= j < pre.len() && pipe_warnings(#[trigger] pre[j], hs).contains(m);
                assert(es[j] == pre[j]);
            } else {
                assert(last[k - wp.len()] == m);
            }
        }
        if exists|j: int| 0 <= j < es.len() && pipe_warnings(#[trigger] es[j], hs).contains(m) {
            let j = choose|j: int| 0 <= j < es.len() && pipe_warnings(#[trigger] es[j], hs).contains(m);
            if j < pre.len() {
                assert(pre[j] == es[j]);
                let k = choose|k: int| 0 <= k < wp.len() && wp[k] == m;
                assert(w[k] == m);
            } else {
                let k = choose|k: int| 0 <= k < last.len() && last[k] == m;
                assert(w[wp.len() + k] == m);
            }
        }
    }
}

/// Law: a pipe is reported for a missing structure at an end exactly when
/// that end names no structure of the drawing: for every pipe entity, the
/// warnings hold `Handle <pipe>: pipe references missing to-structure <to>`
/// if and only if no structure has the handle `to`, and likewise for `from`.
pub proof fn law_missing_pipe_ends(es: Seq<EntityFacts>, i: int)
    requires
        0 <= i < es.len(),
        es[i].pipe is Some,
    ensures
        validation_warnings(es).contains(
            handle_prefix(es[i].handle) + "pipe references missing to-structure "@ + dec(
                es[i].pipe->0.to as nat,
            ),
        ) <==> !structure_handles(es).contains(es[i].pipe->0.to),
        validation_warnings(es).contains(
            handle_prefix(es[i].handle) + "pipe references missing from-structure "@ + dec(
                es[i].pipe->0.from as nat,
            ),
        ) <==> !structure_handles(es).contains(es[i].pipe->0.from),
{
    lemma_missing_end(es, i, true);
    lemma_missing_end(es, i, false);
}

proof fn lemma_missing_end(es: Seq<EntityFacts>, i: int, to_end: bool)
    requires
        0 <= i < es.len(),
        es[i].pipe is Some,
    ensures
        ({
            let e = es[i];
            let p = e.pipe->0;
            let end = if to_end { p.to } else { p.from };
            let word = if to_end {
                "pipe references missing to-structure "@
            } else {
                "pipe references missing from-structure "@
            };
            validation_warnings(es).contains(handle_prefix(e.handle) + word + dec(end as nat))
                <==> !structure_handles(es).contains(end)
        }),
{
    let e = es[i];
    let p = e.pipe->0;
    let hs = structure_handles(es);
    let end = if to_end { p.to } else { p.from };
    let pt = "pipe references missing to-structure "@;
    let pf = "pipe references missing from-structure "@;
    let word = if to_end { pt } else { pf };
    let hp = handle_prefix(e.handle);
    let m = hp + word + dec(end as nat);
    let fp = first_pass(es);
    let sp = second_pass_warnings(es, hs);
    let tail = if count_structures(es) > 0 && count_pipes(es) == 0 {
        seq!["Structures found but no tagged pipes"@]
    } else {
        Seq::<Seq<char>>::empty()
    };
    let all = validation_warnings(es);
    assert(all == fp + sp + tail);
    lemma_second_pass_mem(es, hs, m);
    if !hs.contains(end) {
        let n = if p.n_not_positive { seq![hp + "Manning n <= 0"@] } else { Seq::<Seq<char>>::empty() };
        let f = if !hs.contains(p.from) {
            seq![hp + pf + dec(p.from as nat)]
        } else {
            Seq::<Seq<char>>::empty()
        };
        let t = if !hs.contains(p.to) {
            seq![hp + pt + dec(p.to as nat)]
        } else {
            Seq::<Seq<char>>::empty()
        };
        let pw = pipe_warnings(e, hs);
        assert(pw == n + f + t);
        if to_end {
            assert(pw[(n + f).len() as int] == m);
        } else {
            assert(pw[n.len() as int] == m);
        }
        assert(sp.contains(m));
        let k = choose|k: int| 0 <= k < sp.len() && sp[k] == m;
        assert(all[fp.len() + k] == m);
    }
    if all.contains(m) {
        let k = choose|k: int| 0 <= k < all.len() && all[k] == m;
        reveal_strlit("Handle ");
        reveal_strlit("Structures found but no tagged pipes");
        assert(m[0] == 'H');
        if k < fp.len() {
            assert(fp[k] == m);
            lemma_first_pass_mem(es, m);
            let j = choose|j: int| 0 <= j < es.len() && entity_warnings(#[trigger] es[j]).contains(m);
            lemma_entity_warning_shape(es[j], m);
            lemma_has_prefix_add(hp, word + dec(end as nat));
            assert(m =~= hp + (word + dec(end as nat)));
            lemma_hp_unique(es[j].handle, e.handle, m);
            reveal_strlit("pipe references missing to-structure ");
            reveal_strlit("pipe references missing from-structure ");
            assert(m[hp.len() as int] == word[0]);
        } else if k < fp.len() + sp.len() {
            assert(sp[k - fp.len()] == m);
            let j = choose|j: int| 0 <= j < es.len() && pipe_warnings(#[trigger] es[j], hs).contains(m);
            if es[j].pipe is Some {
                lemma_pipe_warning_end(es[j], hs, e.handle, end, to_end);
            } else {
                assert(pipe_warnings(es[j], hs).len() == 0);
            }
        } else {
            assert(tail[k - fp.len() - sp.len()] == m);
            assert(tail[0][0] == 'S');
        }
    }
}

/// Some entity is a structure.
pub open spec fn has_structure(es: Seq<EntityFacts>) -> bool {
    exists|i: int| 0 <= i < es.len() && (#[trigger] es[i]).structure is Some
}

/// The entity is a pipe whose diameter is not positive.
pub open spec fn bad_diameter(e: EntityFacts) -> bool {
    e.pipe matches Some(p) && p.diameter_not_positive
}

/// Some pipe has a diameter that is not positive.
pub open spec fn has_bad_diameter(es: Seq<EntityFacts>) -> bool {
    exists|i: int| 0 <= i < es.len() && #[trigger] bad_diameter(es[i])
}

proof fn lemma_errors_empty(es: Seq<EntityFacts>)
    ensures
        (second_pass_errors(es).len() == 0) == !has_bad_diameter(es),
        (count_structures(es) == 0) == !has_structure(es),
    decreases es.len(),
{
    if es.len() > 0 {
        let pre = es.drop_last();
        lemma_errors_empty(pre);
        let k = es.len() - 1;
        assert(es[k] == es.last());
        assert((pipe_errors(es[k]).len() == 0) == !bad_diameter(es[k]));
        if bad_diameter(es[k]) {
            assert(has_bad_diameter(es));
        }
        if es[k].structure is Some {
            assert(has_structure(es));
        }
        if has_bad_diameter(pre) {
            let i = choose|i: int| 0 <= i < pre.len() && #[trigger] bad_diameter(pre[i]);
            assert(es[i] == pre[i]);
        }
        if has_bad_diameter(es) {
            let i = choose|i: int| 0 <= i < es.len() && #[trigger] bad_diameter(es[i]);
            if i < k {
                assert(pre[i] == es[i]);
            }
        }
        if has_structure(pre) {
            let i = choose|i: int| 0 <= i < pre.len() && (#[trigger] pre[i]).structure is Some;
            assert(es[i] == pre[i]);
        }
        if has_structure(es) {
            let i = choose|i: int| 0 <= i < es.len() && (#[trigger] es[i]).structure is Some;
            if i < k {
                assert(pre[i] == es[i]);
            }
        }
    }
}

/// Law: a validation lets analysis go on (no errors) exactly when some
/// entity is a structure and no pipe has a diameter of zero or less; every
/// other finding is a warning.
pub proof fn law_ok_iff_structures_and_diameters(es: Seq<EntityFacts>)
    ensures
        (validation_errors(es).len() == 0) == (has_structure(es) && !has_bad_diameter(es)),
{
    lemma_errors_empty(es);
}

} // verus!
