//! Colour coding of an analysed network, and matching of per-entity updates
//! to drawing entities by handle.
//!
//! Colours are AutoCAD Color Index numbers; the caller turns them into the
//! drawing's colour type when it writes them to the entities.

use vstd::prelude::*;

verus! {

/// ACI red, for pipes that surcharge.
pub const SURCHARGED_PIPE_COLOR: u8 = 1;

/// ACI magenta, for structures whose HGL reaches the surface.
pub const FLOODED_STRUCTURE_COLOR: u8 = 6;

/// `(handle, color)` for each position below both lengths whose flag is set,
/// in order (handles and flags are paired up as `zip` pairs them).
pub open spec fn flagged(handles: Seq<u64>, flags: Seq<bool>, color: u8) -> Seq<(u64, u8)>
    decreases handles.len(),
{
    if handles.len() == 0 || flags.len() == 0 {
        seq![]
    } else {
        let n = if handles.len() < flags.len() { handles.len() } else { flags.len() };
        let before = flagged(handles.take(n - 1), flags.take(n - 1), color);
        if flags[n - 1] {
            before.push((handles[n - 1], color))
        } else {
            before
        }
    }
}

fn push_flagged(out: &mut Vec<(u64, u8)>, handles: &Vec<u64>, flags: &Vec<bool>, color: u8)
    ensures
        final(out)@ == old(out)@ + flagged(handles@, flags@, color),
{
    let ghost start = out@;
    let n = if handles.len() < flags.len() { handles.len() } else { flags.len() };
    let mut i: usize = 0;
    assert(flagged(handles@.take(0), flags@.take(0), color) =~= Seq::<(u64, u8)>::empty());
    assert(out@ =~= start + flagged(handles@.take(0), flags@.take(0), color));
    while i < n
        invariant
            n <= handles.len(),
            n <= flags.len(),
            i <= n,
            out@ == start + flagged(handles@.take(i as int), flags@.take(i as int), color),
        decreases n - i,
    {
        let ghost h1 = handles@.take(i + 1);
        let ghost f1 = flags@.take(i + 1);
        assert(h1.take(i as int) =~= handles@.take(i as int));
        assert(f1.take(i as int) =~= flags@.take(i as int));
        if flags[i] {
            out.push((handles[i], color));
        }
        i = i + 1;
        assert(out@ =~= start + flagged(handles@.take(i as int), flags@.take(i as int), color));
    }
    if n == handles.len() {
        assert(handles@.take(n as int) =~= handles@);
        assert(flagged(handles@, flags@.take(n as int), color) == flagged(handles@, flags@, color))
            by {
            lemma_flagged_trim(handles@, flags@, color);
        }
    } else {
        assert(flags@.take(n as int) =~= flags@);
        assert(flagged(handles@.take(n as int), flags@, color) == flagged(handles@, flags@, color))
            by {
            lemma_flagged_trim(handles@, flags@, color);
        }
    }
}

/// Pairing only reads up to the shorter of the two sequences.
proof fn lemma_flagged_trim(handles: Seq<u64>, flags: Seq<bool>, color: u8)
    ensures
        handles.len() <= flags.len() ==> flagged(handles, flags.take(handles.len() as int), color)
            == flagged(handles, flags, color),
        flags.len() <= handles.len() ==> flagged(handles.take(flags.len() as int), flags, color)
            == flagged(handles, flags, color),
{
    let n = if handles.len() < flags.len() { handles.len() } else { flags.len() };
    if handles.len() <= flags.len() {
        let f = flags.take(handles.len() as int);
        if n > 0 {
            assert(f.take(n - 1) =~= flags.take(n - 1));
        }
    }
    if flags.len() <= handles.len() {
        let h = handles.take(flags.len() as int);
        if n > 0 {
            assert(h.take(n - 1) =~= handles.take(n - 1));
        }
    }
}

/// The colours to set after an analysis: surcharged pipes first, then
/// flooded structures. `pipe_handles[i]` is the entity of the analysis's
/// `i`-th pipe and `surcharged[i]` its flag; likewise for the structures.
pub fn style_assignments(
    pipe_handles: &Vec<u64>,
    surcharged: &Vec<bool>,
    node_handles: &Vec<u64>,
    flooding: &Vec<bool>,
) -> (r: Vec<(u64, u8)>)
    ensures
        r@ == flagged(pipe_handles@, surcharged@, SURCHARGED_PIPE_COLOR) + flagged(
            node_handles@,
            flooding@,
            FLOODED_STRUCTURE_COLOR,
        ),
{
    let mut out: Vec<(u64, u8)> = Vec::new();
    push_flagged(&mut out, pipe_handles, surcharged, SURCHARGED_PIPE_COLOR);
    push_flagged(&mut out, node_handles, flooding, FLOODED_STRUCTURE_COLOR);
    assert(out@ =~= flagged(pipe_handles@, surcharged@, SURCHARGED_PIPE_COLOR) + flagged(
        node_handles@,
        flooding@,
        FLOODED_STRUCTURE_COLOR,
    ));
    out
}

/// Position of the first entry of `keys` equal to `h`.
pub open spec fn first_position(keys: Seq<u64>, h: u64) -> Option<int> {
    if exists|i: int| 0 <= i < keys.len() && keys[i] == h {
        Some(choose|i: int| 0 <= i < keys.len() && keys[i] == h && forall|k: int| 0 <= k < i ==> keys[k] != h)
    } else {
        None
    }
}

/// Where the update for entity `h` stands in a list of updates keyed by
/// `keys`: the first entry with that handle, as a search from the front finds it.
pub fn update_for(keys: &Vec<u64>, h: u64) -> (r: Option<usize>)
    ensures
        match r {
            Some(i) => i < keys.len() && keys@[i as int] == h && forall|k: int| 0 <= k < i ==> keys@[k] != h,
            None => forall|k: int| 0 <= k < keys.len() ==> keys@[k] != h,
        },
        match r {
            Some(i) => first_position(keys@, h) == Some(i as int),
            None => first_position(keys@, h) is None,
        },
{
    let mut i: usize = 0;
    while i < keys.len()
        invariant
            i <= keys.len(),
            forall|k: int| 0 <= k < i ==> keys@[k] != h,
        decreases keys.len() - i,
    {
        if keys[i] == h {
            proof {
                let j = choose|j: int| 0 <= j < keys@.len() && keys@[j] == h && forall|k: int| 0 <= k < j ==> keys@[k] != h;
                assert(j == i as int) by {
                    if j < i {
                        assert(keys@[j] != h);
                    }
                    if j > i {
                        assert(keys@[i as int] != h);
                    }
                }
            }
            return Some(i);
        }
        i = i + 1;
    }
    None
}

/// The colour assigned to entity `h`: that of the first assignment for it.
pub fn assigned_color(assignments: &Vec<(u64, u8)>, h: u64) -> (r: Option<u8>)
    ensures
        match r {
            Some(c) => exists|i: int|
                0 <= i < assignments.len() && assignments@[i] == (h, c) && forall|k: int|
                    0 <= k < i ==> assignments@[k].0 != h,
            None => forall|k: int| 0 <= k < assignments.len() ==> assignments@[k].0 != h,
        },
{
    let mut i: usize = 0;
    while i < assignments.len()
        invariant
            i <= assignments.len(),
            forall|k: int| 0 <= k < i ==> assignments@[k].0 != h,
        decreases assignments.len() - i,
    {
        let (k, c) = assignments[i];
        if k == h {
            assert(assignments@[i as int] == (h, c));
            return Some(c);
        }
        i = i + 1;
    }
    None
}

/// Number of set flags.
pub open spec fn count_set(flags: Seq<bool>) -> nat
    decreases flags.len(),
{
    if flags.len() == 0 {
        0
    } else {
        count_set(flags.drop_last()) + if flags.last() { 1nat } else { 0nat }
    }
}

/// How many pipes surcharge (or structures flood), as the styling reports it.
pub fn count_flagged(flags: &Vec<bool>) -> (r: usize)
    ensures
        r == count_set(flags@),
{
    let mut n: usize = 0;
    let mut i: usize = 0;
    assert(flags@.take(0) =~= Seq::<bool>::empty());
    while i < flags.len()
        invariant
            i <= flags.len(),
            n == count_set(flags@.take(i as int)),
            n <= i,
        decreases flags.len() - i,
    {
        assert(flags@.take(i + 1).drop_last() =~= flags@.take(i as int));
        if flags[i] {
            n = n + 1;
        }
        i = i + 1;
    }
    assert(flags@.take(flags.len() as int) =~= flags@);
    n
}

} // verus!
