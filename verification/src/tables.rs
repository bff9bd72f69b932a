//! Column layout of the plain-text report tables.
//!
//! The tables print reals that the hydraulic engine computes. Each real comes
//! in as the decimal text that the table shows (its precision is chosen where
//! it is rendered); this module sets the columns: widths, alignment, the
//! fixed words and the order of the lines.

use vstd::prelude::*;

use crate::text::{append, append_str, chars_of, dec, decimal, string_of};

verus! {

// ------------------------------------------------------------ alignment

pub open spec fn fill(c: char, n: nat) -> Seq<char> {
    Seq::new(n, |i: int| c)
}

/// `s` right-aligned in `w` columns (`{:>w$}`).
pub open spec fn pad_left(s: Seq<char>, w: nat) -> Seq<char> {
    if s.len() < w {
        fill(' ', (w - s.len()) as nat) + s
    } else {
        s
    }
}

/// `s` left-aligned in `w` columns (`{:<w$}`).
pub open spec fn pad_right(s: Seq<char>, w: nat) -> Seq<char> {
    if s.len() < w {
        s + fill(' ', (w - s.len()) as nat)
    } else {
        s
    }
}

/// Appends `n` copies of `c`.
pub fn push_fill(v: &mut Vec<char>, c: char, n: usize)
    ensures
        final(v)@ == old(v)@ + fill(c, n as nat),
{
    let ghost start = v@;
    let mut i: usize = 0;
    while i < n
        invariant
            i <= n,
            v@ == start + fill(c, i as nat),
        decreases n - i,
    {
        v.push(c);
        i = i + 1;
        assert(v@ =~= start + fill(c, i as nat));
    }
}

/// Appends `s` right-aligned in `w` columns.
pub fn push_right_aligned(v: &mut Vec<char>, s: &str, w: usize)
    ensures
        final(v)@ == old(v)@ + pad_left(s@, w as nat),
{
    let ghost start = v@;
    let t = chars_of(s);
    if t.len() < w {
        push_fill(v, ' ', w - t.len());
        append(v, &t);
        assert(v@ =~= start + pad_left(s@, w as nat));
    } else {
        append(v, &t);
    }
}

/// Appends `s` left-aligned in `w` columns.
pub fn push_left_aligned(v: &mut Vec<char>, s: &str, w: usize)
    ensures
        final(v)@ == old(v)@ + pad_right(s@, w as nat),
{
    let ghost start = v@;
    let t = chars_of(s);
    append(v, &t);
    if t.len() < w {
        push_fill(v, ' ', w - t.len());
        assert(v@ =~= start + pad_right(s@, w as nat));
    }
}

/// `s` left-aligned in `w` columns, as a new buffer.
fn left_aligned(s: &str, w: usize) -> (r: Vec<char>)
    ensures
        r@ == pad_right(s@, w as nat),
{
    let mut r: Vec<char> = Vec::new();
    push_left_aligned(&mut r, s, w);
    assert(r@ =~= pad_right(s@, w as nat));
    r
}

/// An optional cell: the text right-aligned in `w` columns, or `absent`.
pub open spec fn opt_cell(o: Option<String>, w: nat, absent: Seq<char>) -> Seq<char> {
    match o {
        Some(t) => pad_left(t@, w),
        None => absent,
    }
}

fn push_opt_cell(v: &mut Vec<char>, o: &Option<String>, w: usize, absent: &str)
    ensures
        final(v)@ == old(v)@ + opt_cell(*o, w as nat, absent@),
{
    match o {
        Some(t) => push_right_aligned(v, t.as_str(), w),
        None => append_str(v, absent),
    }
}

/// Decimal text of an integer (`Display` for signed integers).
pub open spec fn int_text(n: int) -> Seq<char> {
    if n < 0 {
        seq!['-'] + dec((-n) as nat)
    } else {
        dec(n as nat)
    }
}

fn int_chars(n: i32) -> (r: Vec<char>)
    ensures
        r@ == int_text(n as int),
{
    let m: i64 = n as i64;
    if m < 0 {
        let mut r: Vec<char> = Vec::new();
        r.push('-');
        let d = decimal((-m) as u64);
        append(&mut r, &d);
        r
    } else {
        decimal(m as u64)
    }
}

/// Whole inches with the inch mark, as the sizing table prints a diameter.
pub open spec fn inches_text(n: int) -> Seq<char> {
    int_text(n) + seq!['"']
}

fn push_inches(v: &mut Vec<char>, n: i32, w: usize)
    ensures
        final(v)@ == old(v)@ + pad_left(inches_text(n as int), w as nat),
{
    let ghost start = v@;
    let mut t = int_chars(n);
    t.push('"');
    assert(t@ =~= inches_text(n as int));
    if t.len() < w {
        push_fill(v, ' ', w - t.len());
        append(v, &t);
        assert(v@ =~= start + pad_left(inches_text(n as int), w as nat));
    } else {
        append(v, &t);
    }
}

// ------------------------------------------------------------ pipe table

/// One line of the pipe hydraulics table.
pub struct PipeRow {
    pub id: String,
    pub from: String,
    pub to: String,
    /// ft/ft, four decimals.
    pub slope: String,
    /// Time of concentration, minutes, one decimal.
    pub tc: String,
    /// Rainfall intensity, in/hr, two decimals.
    pub intensity: String,
    /// Design flow, cfs, two decimals.
    pub design_q: String,
    /// Full-flow capacity, cfs, two decimals.
    pub capacity: String,
    /// Percent of capacity, one decimal.
    pub pct_full: String,
    /// ft/s, two decimals.
    pub velocity: String,
    /// Normal depth, ft, two decimals; `None` when the pipe flows full.
    pub normal_depth: Option<String>,
    pub hgl_up: Option<String>,
    pub hgl_dn: Option<String>,
    pub surcharged: bool,
}

pub const PIPE_HEADER: &'static str = "Pipe   From   To     Slope    Tc    i      Q      Cap    %Full  V      yn     HGLup    HGLdn    Status\n";

pub const PIPE_UNITS: &'static str = "                     ft/ft    min   in/hr  cfs    cfs    %      ft/s   ft     ft       ft\n";

pub open spec fn pipe_status(surcharged: bool) -> Seq<char> {
    if surcharged { "SURCHARGED"@ } else { "ok"@ }
}

pub open spec fn pipe_row_text(p: PipeRow) -> Seq<char> {
    pad_right(p.id@, 6) + " "@ + pad_right(p.from@, 6) + " "@ + pad_right(p.to@, 6) + " "@
        + pad_left(p.slope@, 7) + " "@ + pad_left(p.tc@, 5) + " "@ + pad_left(p.intensity@, 6)
        + " "@ + pad_left(p.design_q@, 6) + " "@ + pad_left(p.capacity@, 6) + " "@
        + pad_left(p.pct_full@, 6) + " "@ + pad_left(p.velocity@, 6) + " "@
        + opt_cell(p.normal_depth, 6, "  full"@) + " "@ + opt_cell(p.hgl_up, 8, "      --"@)
        + " "@ + opt_cell(p.hgl_dn, 8, "      --"@) + "  "@ + pipe_status(p.surcharged) + "\n"@
}

pub open spec fn pipe_rows_text(rows: Seq<PipeRow>) -> Seq<char>
    decreases rows.len(),
{
    if rows.len() == 0 {
        seq![]
    } else {
        pipe_rows_text(rows.drop_last()) + pipe_row_text(rows.last())
    }
}

pub open spec fn pipe_table_text(rows: Seq<PipeRow>) -> Seq<char> {
    PIPE_HEADER@ + PIPE_UNITS@ + fill('-', 110) + "\n"@ + pipe_rows_text(rows)
}

fn pipe_row(p: &PipeRow) -> (r: Vec<char>)
    ensures
        r@ == pipe_row_text(*p),
{
    let mut r = left_aligned(p.id.as_str(), 6);
    append_str(&mut r, " ");
    push_left_aligned(&mut r, p.from.as_str(), 6);
    append_str(&mut r, " ");
    push_left_aligned(&mut r, p.to.as_str(), 6);
    append_str(&mut r, " ");
    push_right_aligned(&mut r, p.slope.as_str(), 7);
    append_str(&mut r, " ");
    push_right_aligned(&mut r, p.tc.as_str(), 5);
    append_str(&mut r, " ");
    push_right_aligned(&mut r, p.intensity.as_str(), 6);
    append_str(&mut r, " ");
    push_right_aligned(&mut r, p.design_q.as_str(), 6);
    append_str(&mut r, " ");
    push_right_aligned(&mut r, p.capacity.as_str(), 6);
    append_str(&mut r, " ");
    push_right_aligned(&mut r, p.pct_full.as_str(), 6);
    append_str(&mut r, " ");
    push_right_aligned(&mut r, p.velocity.as_str(), 6);
    append_str(&mut r, " ");
    push_opt_cell(&mut r, &p.normal_depth, 6, "  full");
    append_str(&mut r, " ");
    push_opt_cell(&mut r, &p.hgl_up, 8, "      --");
    append_str(&mut r, " ");
    push_opt_cell(&mut r, &p.hgl_dn, 8, "      --");
    append_str(&mut r, "  ");
    if p.surcharged {
        append_str(&mut r, "SURCHARGED");
    } else {
        append_str(&mut r, "ok");
    }
    append_str(&mut r, "\n");
    r
}

/// The pipe hydraulics table: two header lines, a rule, one line per pipe.
pub fn pipe_table(rows: &Vec<PipeRow>) -> (r: String)
    ensures
        r@ == pipe_table_text(rows@),
{
    let mut v = chars_of(PIPE_HEADER);
    append_str(&mut v, PIPE_UNITS);
    push_fill(&mut v, '-', 110);
    append_str(&mut v, "\n");
    let ghost head = v@;
    let mut i: usize = 0;
    assert(rows@.take(0) =~= Seq::<PipeRow>::empty());
    while i < rows.len()
        invariant
            i <= rows.len(),
            v@ == head + pipe_rows_text(rows@.take(i as int)),
        decreases rows.len() - i,
    {
        let line = pipe_row(&rows[i]);
        append(&mut v, &line);
        assert(rows@.take(i + 1).drop_last() =~= rows@.take(i as int));
        i = i + 1;
        assert(v@ =~= head + pipe_rows_text(rows@.take(i as int)));
    }
    assert(rows@.take(rows.len() as int) =~= rows@);
    string_of(&v)
}

// ------------------------------------------------------------ node table

/// One line of the node / HGL table.
pub struct NodeRow {
    pub id: String,
    /// Minutes, one decimal.
    pub tc: String,
    /// ft, two decimals.
    pub rim: String,
    /// ft, two decimals.
    pub hgl: String,
    /// Rim minus HGL, ft, two decimals.
    pub freeboard: String,
    /// The HGL stands above the rim.
    pub flooding: bool,
}

pub const NODE_HEADER: &'static str = "Node   Tc(min)  Rim(ft)   HGL(ft)   Freeboard  Status\n";

pub open spec fn node_status(flooding: bool) -> Seq<char> {
    if flooding { "FLOODING"@ } else { "ok"@ }
}

pub open spec fn node_row_text(n: NodeRow) -> Seq<char> {
    pad_right(n.id@, 6) + " "@ + pad_left(n.tc@, 7) + " "@ + pad_left(n.rim@, 8) + " "@
        + pad_left(n.hgl@, 8) + " "@ + pad_left(n.freeboard@, 9) + "  "@ + node_status(n.flooding)
        + "\n"@
}

pub open spec fn node_rows_text(rows: Seq<NodeRow>) -> Seq<char>
    decreases rows.len(),
{
    if rows.len() == 0 {
        seq![]
    } else {
        node_rows_text(rows.drop_last()) + node_row_text(rows.last())
    }
}

pub open spec fn node_table_text(rows: Seq<NodeRow>) -> Seq<char> {
    NODE_HEADER@ + fill('-', 60) + "\n"@ + node_rows_text(rows)
}

fn node_row(n: &NodeRow) -> (r: Vec<char>)
    ensures
        r@ == node_row_text(*n),
{
    let mut r = left_aligned(n.id.as_str(), 6);
    append_str(&mut r, " ");
    push_right_aligned(&mut r, n.tc.as_str(), 7);
    append_str(&mut r, " ");
    push_right_aligned(&mut r, n.rim.as_str(), 8);
    append_str(&mut r, " ");
    push_right_aligned(&mut r, n.hgl.as_str(), 8);
    append_str(&mut r, " ");
    push_right_aligned(&mut r, n.freeboard.as_str(), 9);
    append_str(&mut r, "  ");
    if n.flooding {
        append_str(&mut r, "FLOODING");
    } else {
        append_str(&mut r, "ok");
    }
    append_str(&mut r, "\n");
    r
}

/// The node / HGL table: a header line, a rule, one line per structure.
pub fn node_table(rows: &Vec<NodeRow>) -> (r: String)
    ensures
        r@ == node_table_text(rows@),
{
    let mut v = chars_of(NODE_HEADER);
    push_fill(&mut v, '-', 60);
    append_str(&mut v, "\n");
    let ghost head = v@;
    let mut i: usize = 0;
    assert(rows@.take(0) =~= Seq::<NodeRow>::empty());
    while i < rows.len()
        invariant
            i <= rows.len(),
            v@ == head + node_rows_text(rows@.take(i as int)),
        decreases rows.len() - i,
    {
        let line = node_row(&rows[i]);
        append(&mut v, &line);
        assert(rows@.take(i + 1).drop_last() =~= rows@.take(i as int));
        i = i + 1;
        assert(v@ =~= head + node_rows_text(rows@.take(i as int)));
    }
    assert(rows@.take(rows.len() as int) =~= rows@);
    string_of(&v)
}

// ------------------------------------------------------------ sizing table

/// What pipe sizing concluded for one pipe.
#[derive(Clone, Copy, Debug, PartialEq, Eq, Structural)]
pub enum SizeOutcome {
    /// The current size meets the criteria.
    Adequate,
    /// A larger catalog size is recommended.
    Sized,
    /// No catalog size meets the criteria.
    NoSolution,
}

/// One line of the pipe-sizing table, with the note printed under it.
pub struct SizingRow {
    pub pipe_id: String,
    /// cfs, two decimals.
    pub design_q: String,
    /// ft/ft, four decimals.
    pub slope: String,
    /// Current diameter, whole inches.
    pub current_in: i32,
    /// Recommended diameter, whole inches.
    pub recommended_in: i32,
    /// Percent full at the recommended size, one decimal.
    pub pct_full: String,
    /// ft/s, two decimals.
    pub velocity: String,
    pub outcome: SizeOutcome,
    pub note: String,
}

pub const SIZING_HEADER: &'static str = "Pipe   Q(cfs)  Slope    Current  Rec'd    %Full  V(ft/s)  Status\n";

pub open spec fn sizing_status(o: SizeOutcome) -> Seq<char> {
    match o {
        SizeOutcome::Adequate => "ok"@,
        SizeOutcome::Sized => "UPSIZE"@,
        SizeOutcome::NoSolution => "NO SIZE"@,
    }
}

pub open spec fn sizing_row_text(r: SizingRow) -> Seq<char> {
    pad_right(r.pipe_id@, 6) + " "@ + pad_left(r.design_q@, 6) + " "@ + pad_left(r.slope@, 7)
        + " "@ + pad_left(inches_text(r.current_in as int), 6) + " "@
        + pad_left(inches_text(r.recommended_in as int), 6) + " "@ + pad_left(r.pct_full@, 6)
        + " "@ + pad_left(r.velocity@, 6) + "  "@ + sizing_status(r.outcome) + "\n"@
}

pub open spec fn sizing_rows_text(rows: Seq<SizingRow>) -> Seq<char>
    decreases rows.len(),
{
    if rows.len() == 0 {
        seq![]
    } else {
        sizing_rows_text(rows.drop_last()) + sizing_row_text(rows.last())
    }
}

pub open spec fn sizing_table_text(rows: Seq<SizingRow>) -> Seq<char> {
    SIZING_HEADER@ + fill('-', 72) + "\n"@ + sizing_rows_text(rows)
}

fn sizing_row(s: &SizingRow) -> (r: Vec<char>)
    ensures
        r@ == sizing_row_text(*s),
{
    let mut r = left_aligned(s.pipe_id.as_str(), 6);
    append_str(&mut r, " ");
    push_right_aligned(&mut r, s.design_q.as_str(), 6);
    append_str(&mut r, " ");
    push_right_aligned(&mut r, s.slope.as_str(), 7);
    append_str(&mut r, " ");
    push_inches(&mut r, s.current_in, 6);
    append_str(&mut r, " ");
    push_inches(&mut r, s.recommended_in, 6);
    append_str(&mut r, " ");
    push_right_aligned(&mut r, s.pct_full.as_str(), 6);
    append_str(&mut r, " ");
    push_right_aligned(&mut r, s.velocity.as_str(), 6);
    append_str(&mut r, "  ");
    match s.outcome {
        SizeOutcome::Adequate => append_str(&mut r, "ok"),
        SizeOutcome::Sized => append_str(&mut r, "UPSIZE"),
        SizeOutcome::NoSolution => append_str(&mut r, "NO SIZE"),
    }
    append_str(&mut r, "\n");
    r
}

fn sizing_table_chars(rows: &Vec<SizingRow>) -> (r: Vec<char>)
    ensures
        r@ == sizing_table_text(rows@),
{
    let mut v = chars_of(SIZING_HEADER);
    push_fill(&mut v, '-', 72);
    append_str(&mut v, "\n");
    let ghost head = v@;
    let mut i: usize = 0;
    assert(rows@.take(0) =~= Seq::<SizingRow>::empty());
    while i < rows.len()
        invariant
            i <= rows.len(),
            v@ == head + sizing_rows_text(rows@.take(i as int)),
        decreases rows.len() - i,
    {
        let line = sizing_row(&rows[i]);
        append(&mut v, &line);
        assert(rows@.take(i + 1).drop_last() =~= rows@.take(i as int));
        i = i + 1;
        assert(v@ =~= head + sizing_rows_text(rows@.take(i as int)));
    }
    assert(rows@.take(rows.len() as int) =~= rows@);
    v
}

/// The pipe-sizing recommendations table.
pub fn sizing_table(rows: &Vec<SizingRow>) -> (r: String)
    ensures
        r@ == sizing_table_text(rows@),
{
    let v = sizing_table_chars(rows);
    string_of(&v)
}

} // verus!
