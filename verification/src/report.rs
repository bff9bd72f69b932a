//! The analysis, sizing and multi-return-period reports: the tables of
//! `tables`, the inlet capacity section, and the summary lines that name the
//! pipes and structures needing attention.

use vstd::prelude::*;

use crate::tables::{
    fill, node_table, node_table_text, pad_left, pad_right, pipe_table, pipe_table_text,
    push_fill, push_left_aligned, push_right_aligned, sizing_table, sizing_table_text, NodeRow,
    PipeRow, SizeOutcome, SizingRow,
};
use crate::text::{append, append_str, chars_of, dec, decimal, string_of};

verus! {

/// `items` joined with `sep` between them.
pub open spec fn join(items: Seq<Seq<char>>, sep: Seq<char>) -> Seq<char>
    decreases items.len(),
{
    if items.len() == 0 {
        seq![]
    } else if items.len() == 1 {
        items[0]
    } else {
        join(items.drop_last(), sep) + sep + items.last()
    }
}

pub open spec fn names(v: Seq<String>) -> Seq<Seq<char>> {
    v.map_values(|s: String| s@)
}

/// `items.join(", ")`.
pub fn join_names(items: &Vec<String>) -> (r: Vec<char>)
    ensures
        r@ == join(names(items@), ", "@),
{
    let mut v: Vec<char> = Vec::new();
    let mut i: usize = 0;
    assert(names(items@).take(0) =~= Seq::<Seq<char>>::empty());
    while i < items.len()
        invariant
            i <= items.len(),
            v@ == join(names(items@).take(i as int), ", "@),
        decreases items.len() - i,
    {
        let ghost pre = names(items@).take(i as int);
        let ghost cur = names(items@).take(i + 1);
        assert(cur.drop_last() =~= pre);
        if i > 0 {
            append_str(&mut v, ", ");
        }
        append_str(&mut v, items[i].as_str());
        i = i + 1;
        assert(v@ =~= join(names(items@).take(i as int), ", "@));
    }
    assert(names(items@).take(items.len() as int) =~= names(items@));
    v
}

/// The lines closing the analysis report, from the ids of the surcharged
/// pipes and of the flooding structures.
pub open spec fn analysis_summary_text(surcharged: Seq<Seq<char>>, flooding: Seq<Seq<char>>) -> Seq<char> {
    if surcharged.len() == 0 && flooding.len() == 0 {
        "All pipes flow open-channel; no surface flooding.\n"@
    } else {
        (if surcharged.len() > 0 {
            "Surcharged pipes: "@ + join(surcharged, ", "@) + "\n"@
        } else {
            Seq::<char>::empty()
        }) + (if flooding.len() > 0 {
            "Structures flooding (HGL > rim): "@ + join(flooding, ", "@) + "\n"@
        } else {
            Seq::<char>::empty()
        })
    }
}

pub fn analysis_summary(surcharged: &Vec<String>, flooding: &Vec<String>) -> (r: String)
    ensures
        r@ == analysis_summary_text(names(surcharged@), names(flooding@)),
{
    let mut v: Vec<char> = Vec::new();
    if surcharged.len() == 0 && flooding.len() == 0 {
        append_str(&mut v, "All pipes flow open-channel; no surface flooding.\n");
        return string_of(&v);
    }
    if surcharged.len() > 0 {
        append_str(&mut v, "Surcharged pipes: ");
        let j = join_names(surcharged);
        crate::text::append(&mut v, &j);
        append_str(&mut v, "\n");
    }
    let ghost first = v@;
    if flooding.len() > 0 {
        append_str(&mut v, "Structures flooding (HGL > rim): ");
        let j = join_names(flooding);
        crate::text::append(&mut v, &j);
        append_str(&mut v, "\n");
    }
    assert(v@ =~= analysis_summary_text(names(surcharged@), names(flooding@)));
    string_of(&v)
}

/// The lines closing the sizing report, from the ids of the pipes to upsize
/// and of those with no catalog solution.
pub open spec fn sizing_summary_text(upsized: Seq<Seq<char>>, failed: Seq<Seq<char>>) -> Seq<char> {
    if upsized.len() == 0 && failed.len() == 0 {
        "\nAll pipes meet design criteria.\n"@
    } else {
        (if upsized.len() > 0 {
            "\nPipes to upsize: "@ + join(upsized, ", "@) + "\n"@
        } else {
            Seq::<char>::empty()
        }) + (if failed.len() > 0 {
            "Pipes with no catalog solution: "@ + join(failed, ", "@) + "\n"@
        } else {
            Seq::<char>::empty()
        })
    }
}

pub fn sizing_summary(upsized: &Vec<String>, failed: &Vec<String>) -> (r: String)
    ensures
        r@ == sizing_summary_text(names(upsized@), names(failed@)),
{
    let mut v: Vec<char> = Vec::new();
    if upsized.len() == 0 && failed.len() == 0 {
        append_str(&mut v, "\nAll pipes meet design criteria.\n");
        return string_of(&v);
    }
    if upsized.len() > 0 {
        append_str(&mut v, "\nPipes to upsize: ");
        let j = join_names(upsized);
        crate::text::append(&mut v, &j);
        append_str(&mut v, "\n");
    }
    if failed.len() > 0 {
        append_str(&mut v, "Pipes with no catalog solution: ");
        let j = join_names(failed);
        crate::text::append(&mut v, &j);
        append_str(&mut v, "\n");
    }
    assert(v@ =~= sizing_summary_text(names(upsized@), names(failed@)));
    string_of(&v)
}

// ------------------------------------------------------------ pick lists

/// Ids of the surcharged pipes, in table order.
pub open spec fn surcharged_ids(rows: Seq<PipeRow>) -> Seq<Seq<char>>
    decreases rows.len(),
{
    if rows.len() == 0 {
        seq![]
    } else {
        surcharged_ids(rows.drop_last()) + (if rows.last().surcharged {
            seq![rows.last().id@]
        } else {
            Seq::<Seq<char>>::empty()
        })
    }
}

/// Ids of the structures whose HGL stands above the rim, in table order.
pub open spec fn flooding_ids(rows: Seq<NodeRow>) -> Seq<Seq<char>>
    decreases rows.len(),
{
    if rows.len() == 0 {
        seq![]
    } else {
        flooding_ids(rows.drop_last()) + (if rows.last().flooding {
            seq![rows.last().id@]
        } else {
            Seq::<Seq<char>>::empty()
        })
    }
}

/// Ids of the pipes whose sizing ended in `o`, in table order.
pub open spec fn ids_with_outcome(rows: Seq<SizingRow>, o: SizeOutcome) -> Seq<Seq<char>>
    decreases rows.len(),
{
    if rows.len() == 0 {
        seq![]
    } else {
        ids_with_outcome(rows.drop_last(), o) + (if rows.last().outcome == o {
            seq![rows.last().pipe_id@]
        } else {
            Seq::<Seq<char>>::empty()
        })
    }
}

fn surcharged_list(rows: &Vec<PipeRow>) -> (r: Vec<String>)
    ensures
        names(r@) == surcharged_ids(rows@),
{
    let mut out: Vec<String> = Vec::new();
    let mut i: usize = 0;
    assert(rows@.take(0) =~= Seq::<PipeRow>::empty());
    assert(names(out@) =~= Seq::<Seq<char>>::empty());
    while i < rows.len()
        invariant
            i <= rows.len(),
            names(out@) == surcharged_ids(rows@.take(i as int)),
        decreases rows.len() - i,
    {
        assert(rows@.take(i + 1).drop_last() =~= rows@.take(i as int));
        if rows[i].surcharged {
            let ghost pre = out@;
            out.push(rows[i].id.clone());
            assert(names(out@) =~= names(pre).push(rows@[i as int].id@));
        }
        i = i + 1;
        assert(names(out@) =~= surcharged_ids(rows@.take(i as int)));
    }
    assert(rows@.take(rows.len() as int) =~= rows@);
    out
}

fn flooding_list(rows: &Vec<NodeRow>) -> (r: Vec<String>)
    ensures
        names(r@) == flooding_ids(rows@),
{
    let mut out: Vec<String> = Vec::new();
    let mut i: usize = 0;
    assert(rows@.take(0) =~= Seq::<NodeRow>::empty());
    assert(names(out@) =~= Seq::<Seq<char>>::empty());
    while i < rows.len()
        invariant
            i <= rows.len(),
            names(out@) == flooding_ids(rows@.take(i as int)),
        decreases rows.len() - i,
    {
        assert(rows@.take(i + 1).drop_last() =~= rows@.take(i as int));
        if rows[i].flooding {
            let ghost pre = out@;
            out.push(rows[i].id.clone());
            assert(names(out@) =~= names(pre).push(rows@[i as int].id@));
        }
        i = i + 1;
        assert(names(out@) =~= flooding_ids(rows@.take(i as int)));
    }
    assert(rows@.take(rows.len() as int) =~= rows@);
    out
}

fn outcome_list(rows: &Vec<SizingRow>, o: SizeOutcome) -> (r: Vec<String>)
    ensures
        names(r@) == ids_with_outcome(rows@, o),
{
    let mut out: Vec<String> = Vec::new();
    let mut i: usize = 0;
    assert(rows@.take(0) =~= Seq::<SizingRow>::empty());
    assert(names(out@) =~= Seq::<Seq<char>>::empty());
    while i < rows.len()
        invariant
            i <= rows.len(),
            names(out@) == ids_with_outcome(rows@.take(i as int), o),
        decreases rows.len() - i,
    {
        assert(rows@.take(i + 1).drop_last() =~= rows@.take(i as int));
        if rows[i].outcome == o {
            let ghost pre = out@;
            out.push(rows[i].pipe_id.clone());
            assert(names(out@) =~= names(pre).push(rows@[i as int].pipe_id@));
        }
        i = i + 1;
        assert(names(out@) =~= ids_with_outcome(rows@.take(i as int), o));
    }
    assert(rows@.take(rows.len() as int) =~= rows@);
    out
}

// ------------------------------------------------------------ analysis report

/// The tables of one analysis run.
pub struct AnalysisTables {
    pub pipes: Vec<PipeRow>,
    pub nodes: Vec<NodeRow>,
}

pub open spec fn analysis_text(a: AnalysisTables) -> Seq<char> {
    "=== STORM SEWER ANALYSIS ===\n\n"@ + pipe_table_text(a.pipes@) + "\n"@ + node_table_text(
        a.nodes@,
    ) + "\n"@ + analysis_summary_text(surcharged_ids(a.pipes@), flooding_ids(a.nodes@))
}

fn analysis_chars(a: &AnalysisTables) -> (r: Vec<char>)
    ensures
        r@ == analysis_text(*a),
{
    let mut v = chars_of("=== STORM SEWER ANALYSIS ===\n\n");
    let pt = pipe_table(&a.pipes);
    append_str(&mut v, pt.as_str());
    append_str(&mut v, "\n");
    let nt = node_table(&a.nodes);
    append_str(&mut v, nt.as_str());
    append_str(&mut v, "\n");
    let surcharged = surcharged_list(&a.pipes);
    let flooding = flooding_list(&a.nodes);
    let summary = analysis_summary(&surcharged, &flooding);
    append_str(&mut v, summary.as_str());
    v
}

/// The full analysis report: pipe table, node table, then the pipes that
/// surcharge and the structures that flood, or the all-clear line.
pub fn format_analysis(a: &AnalysisTables) -> (r: String)
    ensures
        r@ == analysis_text(*a),
{
    let v = analysis_chars(a);
    string_of(&v)
}

/// An inlet that receives flow, checked against its grate capacity.
pub struct InletRow {
    pub id: String,
    /// Approach flow, cfs, two decimals.
    pub design_q: String,
    /// Interception capacity, cfs, two decimals.
    pub capacity: String,
    /// The capacity covers the approach flow.
    pub ok: bool,
}

pub open spec fn inlet_row_text(r: InletRow) -> Seq<char> {
    pad_right(r.id@, 6) + " "@ + pad_left(r.design_q@, 6) + " "@ + pad_left(r.capacity@, 8) + "  "@
        + (if r.ok { "ok"@ } else { "BYPASS"@ }) + "\n"@
}

pub open spec fn inlet_rows_text(rows: Seq<InletRow>) -> Seq<char>
    decreases rows.len(),
{
    if rows.len() == 0 {
        seq![]
    } else {
        inlet_rows_text(rows.drop_last()) + inlet_row_text(rows.last())
    }
}

/// Nothing when no inlet receives flow; otherwise a heading and one line per inlet.
pub open spec fn inlet_section_text(rows: Seq<InletRow>) -> Seq<char> {
    if rows.len() == 0 {
        seq![]
    } else {
        "\n=== INLET CAPACITY (HEC-22 grate, simplified) ===\n"@
            + "Node   Q(cfs)  Cap(cfs)  Status\n"@ + inlet_rows_text(rows)
    }
}

fn inlet_row(r: &InletRow) -> (t: Vec<char>)
    ensures
        t@ == inlet_row_text(*r),
{
    let mut t: Vec<char> = Vec::new();
    push_left_aligned(&mut t, r.id.as_str(), 6);
    assert(t@ =~= pad_right(r.id@, 6));
    append_str(&mut t, " ");
    push_right_aligned(&mut t, r.design_q.as_str(), 6);
    append_str(&mut t, " ");
    push_right_aligned(&mut t, r.capacity.as_str(), 8);
    append_str(&mut t, "  ");
    if r.ok {
        append_str(&mut t, "ok");
    } else {
        append_str(&mut t, "BYPASS");
    }
    append_str(&mut t, "\n");
    t
}

/// The inlet capacity section of the full report.
pub fn inlet_section(rows: &Vec<InletRow>) -> (r: String)
    ensures
        r@ == inlet_section_text(rows@),
{
    if rows.len() == 0 {
        let v: Vec<char> = Vec::new();
        assert(v@ =~= inlet_section_text(rows@));
        return string_of(&v);
    }
    let mut v = chars_of("\n=== INLET CAPACITY (HEC-22 grate, simplified) ===\n");
    append_str(&mut v, "Node   Q(cfs)  Cap(cfs)  Status\n");
    let ghost head = v@;
    let mut i: usize = 0;
    assert(rows@.take(0) =~= Seq::<InletRow>::empty());
    while i < rows.len()
        invariant
            i <= rows.len(),
            v@ == head + inlet_rows_text(rows@.take(i as int)),
        decreases rows.len() - i,
    {
        let line = inlet_row(&rows[i]);
        append(&mut v, &line);
        assert(rows@.take(i + 1).drop_last() =~= rows@.take(i as int));
        i = i + 1;
        assert(v@ =~= head + inlet_rows_text(rows@.take(i as int)));
    }
    assert(rows@.take(rows.len() as int) =~= rows@);
    string_of(&v)
}

/// The analysis report followed by the inlet capacity section.
pub fn full_report(a: &AnalysisTables, inlets: &Vec<InletRow>) -> (r: String)
    ensures
        r@ == analysis_text(*a) + inlet_section_text(inlets@),
{
    let mut v = analysis_chars(a);
    let s = inlet_section(inlets);
    append_str(&mut v, s.as_str());
    string_of(&v)
}

pub open spec fn report_outcome_text(outcome: Result<AnalysisTables, String>) -> Seq<char> {
    match outcome {
        Ok(a) => analysis_text(a),
        Err(e) => "storm-sewer analysis error: "@ + e@,
    }
}

/// The report of an analysis run, or the line naming why the run failed.
pub fn report_text(outcome: &Result<AnalysisTables, String>) -> (r: String)
    ensures
        r@ == report_outcome_text(*outcome),
{
    match outcome {
        Ok(a) => format_analysis(a),
        Err(e) => {
            let mut v = chars_of("storm-sewer analysis error: ");
            append_str(&mut v, e.as_str());
            string_of(&v)
        },
    }
}

/// The report of the built-in sample network's analysis run.
pub fn demo_report(outcome: &Result<AnalysisTables, String>) -> (r: String)
    ensures
        r@ == report_outcome_text(*outcome),
{
    report_text(outcome)
}

/// The report of a network read from a `.ssn` document: the analysis report
/// when reading and analysing succeeded, else their error unchanged.
pub fn report_text_from(outcome: Result<AnalysisTables, String>) -> (r: Result<String, String>)
    ensures
        match (outcome, r) {
            (Ok(a), Ok(t)) => t@ == analysis_text(a),
            (Err(e), Err(m)) => m == e,
            _ => false,
        },
{
    match outcome {
        Ok(a) => Ok(format_analysis(&a)),
        Err(e) => Err(e),
    }
}

// ------------------------------------------------------------ sizing report

pub open spec fn notes_text(rows: Seq<SizingRow>) -> Seq<char>
    decreases rows.len(),
{
    if rows.len() == 0 {
        seq![]
    } else {
        notes_text(rows.drop_last()) + rows.last().note@ + "\n"@
    }
}

pub open spec fn sizing_report_text(rows: Seq<SizingRow>) -> Seq<char> {
    "=== STORM SEWER PIPE SIZING ===\n\n"@ + sizing_table_text(rows) + "\n"@ + notes_text(rows)
        + sizing_summary_text(
        ids_with_outcome(rows, SizeOutcome::Sized),
        ids_with_outcome(rows, SizeOutcome::NoSolution),
    )
}

/// The full sizing report: the table, each pipe's note on a line of its
/// own, then the pipes to upsize and those with no catalog solution.
pub fn format_sizing(rows: &Vec<SizingRow>) -> (r: String)
    ensures
        r@ == sizing_report_text(rows@),
{
    let mut v = chars_of("=== STORM SEWER PIPE SIZING ===\n\n");
    let t = sizing_table(rows);
    append_str(&mut v, t.as_str());
    append_str(&mut v, "\n");
    let ghost head = v@;
    let mut i: usize = 0;
    assert(rows@.take(0) =~= Seq::<SizingRow>::empty());
    while i < rows.len()
        invariant
            i <= rows.len(),
            v@ == head + notes_text(rows@.take(i as int)),
        decreases rows.len() - i,
    {
        append_str(&mut v, rows[i].note.as_str());
        append_str(&mut v, "\n");
        assert(rows@.take(i + 1).drop_last() =~= rows@.take(i as int));
        i = i + 1;
        assert(v@ =~= head + notes_text(rows@.take(i as int)));
    }
    assert(rows@.take(rows.len() as int) =~= rows@);
    let upsized = outcome_list(rows, SizeOutcome::Sized);
    let failed = outcome_list(rows, SizeOutcome::NoSolution);
    let summary = sizing_summary(&upsized, &failed);
    append_str(&mut v, summary.as_str());
    string_of(&v)
}

// ------------------------------------------------------------ multi return period

/// One pipe's peak flow in one return-period run.
pub struct PeakFlowRow {
    pub id: String,
    /// cfs, two decimals.
    pub design_q: String,
    pub surcharged: bool,
}

/// The analysis run at one return period.
pub struct ReturnPeriodRun {
    /// Years.
    pub rp: u32,
    pub pipes: Vec<PeakFlowRow>,
}

pub const MULTI_RP_HEADER: &'static str = "=== MULTI RETURN-PERIOD PEAK FLOWS ===\n\nRP(yr)  Pipe   Q(cfs)   Surcharged\n";

pub open spec fn peak_row_text(rp: u32, p: PeakFlowRow) -> Seq<char> {
    pad_right(dec(rp as nat), 7) + " "@ + pad_right(p.id@, 6) + " "@ + pad_left(p.design_q@, 6)
        + "  "@ + (if p.surcharged { "yes"@ } else { "no"@ }) + "\n"@
}

pub open spec fn peak_rows_text(rp: u32, rows: Seq<PeakFlowRow>) -> Seq<char>
    decreases rows.len(),
{
    if rows.len() == 0 {
        seq![]
    } else {
        peak_rows_text(rp, rows.drop_last()) + peak_row_text(rp, rows.last())
    }
}

/// Each run's lines, each run closed by an empty line.
pub open spec fn runs_text(runs: Seq<ReturnPeriodRun>) -> Seq<char>
    decreases runs.len(),
{
    if runs.len() == 0 {
        seq![]
    } else {
        runs_text(runs.drop_last()) + peak_rows_text(runs.last().rp, runs.last().pipes@) + "\n"@
    }
}

pub open spec fn multi_rp_text(runs: Result<Vec<ReturnPeriodRun>, String>) -> Seq<char> {
    MULTI_RP_HEADER@ + fill('-', 40) + "\n"@ + match runs {
        Ok(v) => runs_text(v@),
        Err(e) => "error: "@ + e@ + "\n"@,
    }
}

fn peak_row(rp: u32, p: &PeakFlowRow) -> (t: Vec<char>)
    ensures
        t@ == peak_row_text(rp, *p),
{
    let d = decimal(rp as u64);
    let mut t: Vec<char> = Vec::new();
    append(&mut t, &d);
    if d.len() < 7 {
        push_fill(&mut t, ' ', 7 - d.len());
    }
    assert(t@ =~= pad_right(dec(rp as nat), 7));
    append_str(&mut t, " ");
    push_left_aligned(&mut t, p.id.as_str(), 6);
    append_str(&mut t, " ");
    push_right_aligned(&mut t, p.design_q.as_str(), 6);
    append_str(&mut t, "  ");
    if p.surcharged {
        append_str(&mut t, "yes");
    } else {
        append_str(&mut t, "no");
    }
    append_str(&mut t, "\n");
    t
}

fn push_run(v: &mut Vec<char>, run: &ReturnPeriodRun)
    ensures
        final(v)@ == old(v)@ + peak_rows_text(run.rp, run.pipes@) + "\n"@,
{
    let ghost start = v@;
    let mut i: usize = 0;
    assert(run.pipes@.take(0) =~= Seq::<PeakFlowRow>::empty());
    assert(v@ =~= start + peak_rows_text(run.rp, run.pipes@.take(0)));
    while i < run.pipes.len()
        invariant
            i <= run.pipes.len(),
            v@ == start + peak_rows_text(run.rp, run.pipes@.take(i as int)),
        decreases run.pipes.len() - i,
    {
        let line = peak_row(run.rp, &run.pipes[i]);
        append(v, &line);
        assert(run.pipes@.take(i + 1).drop_last() =~= run.pipes@.take(i as int));
        i = i + 1;
        assert(v@ =~= start + peak_rows_text(run.rp, run.pipes@.take(i as int)));
    }
    assert(run.pipes@.take(run.pipes.len() as int) =~= run.pipes@);
    append_str(v, "\n");
}

/// Peak design flow of every pipe at each configured return period, or the
/// error that stopped the runs.
pub fn format_multi_rp(runs: &Result<Vec<ReturnPeriodRun>, String>) -> (r: String)
    ensures
        r@ == multi_rp_text(*runs),
{
    let mut v = chars_of(MULTI_RP_HEADER);
    push_fill(&mut v, '-', 40);
    append_str(&mut v, "\n");
    let ghost head = v@;
    match runs {
        Ok(list) => {
            let mut k: usize = 0;
            assert(list@.take(0) =~= Seq::<ReturnPeriodRun>::empty());
            assert(v@ =~= head + runs_text(list@.take(0)));
            while k < list.len()
                invariant
                    k <= list.len(),
                    v@ == head + runs_text(list@.take(k as int)),
                decreases list.len() - k,
            {
                push_run(&mut v, &list[k]);
                assert(list@.take(k + 1).drop_last() =~= list@.take(k as int));
                k = k + 1;
                assert(v@ =~= head + runs_text(list@.take(k as int)));
            }
            assert(list@.take(list.len() as int) =~= list@);
        },
        Err(e) => {
            append_str(&mut v, "error: ");
            append_str(&mut v, e.as_str());
            append_str(&mut v, "\n");
            assert(v@ =~= head + ("error: "@ + e@ + "\n"@));
        },
    }
    string_of(&v)
}

// ------------------------------------------------------------ laws

proof fn lemma_surcharged_none(rows: Seq<PipeRow>)
    ensures
        (surcharged_ids(rows).len() == 0) == (forall|i: int| 0 <= i < rows.len() ==> !(#[trigger] rows[i]).surcharged),
    decreases rows.len(),
{
    if rows.len() > 0 {
        lemma_surcharged_none(rows.drop_last());
        let k = rows.len() - 1;
        assert(rows[k] == rows.last());
        assert forall|i: int| 0 <= i < k implies rows.drop_last()[i] == rows[i] by {}
        if forall|i: int| 0 <= i < rows.len() ==> !(#[trigger] rows[i]).surcharged {
            assert forall|i: int| 0 <= i < rows.drop_last().len() implies !(#[trigger] rows.drop_last()[i]).surcharged by {
                assert(rows.drop_last()[i] == rows[i]);
            }
        }
    }
}

proof fn lemma_flooding_none(rows: Seq<NodeRow>)
    ensures
        (flooding_ids(rows).len() == 0) == (forall|i: int| 0 <= i < rows.len() ==> !(#[trigger] rows[i]).flooding),
    decreases rows.len(),
{
    if rows.len() > 0 {
        lemma_flooding_none(rows.drop_last());
        let k = rows.len() - 1;
        assert(rows[k] == rows.last());
        assert forall|i: int| 0 <= i < k implies rows.drop_last()[i] == rows[i] by {}
        if forall|i: int| 0 <= i < rows.len() ==> !(#[trigger] rows[i]).flooding {
            assert forall|i: int| 0 <= i < rows.drop_last().len() implies !(#[trigger] rows.drop_last()[i]).flooding by {
                assert(rows.drop_last()[i] == rows[i]);
            }
        }
    }
}

proof fn lemma_outcome_none(rows: Seq<SizingRow>, o: SizeOutcome)
    ensures
        (ids_with_outcome(rows, o).len() == 0) == (forall|i: int| 0 <= i < rows.len() ==> (#[trigger] rows[i]).outcome != o),
    decreases rows.len(),
{
    if rows.len() > 0 {
        lemma_outcome_none(rows.drop_last(), o);
        let k = rows.len() - 1;
        assert(rows[k] == rows.last());
        assert forall|i: int| 0 <= i < k implies rows.drop_last()[i] == rows[i] by {}
        if forall|i: int| 0 <= i < rows.len() ==> (#[trigger] rows[i]).outcome != o {
            assert forall|i: int| 0 <= i < rows.drop_last().len() implies (#[trigger] rows.drop_last()[i]).outcome != o by {
                assert(rows.drop_last()[i] == rows[i]);
            }
        }
    }
}

/// Law: the analysis report closes with the all-clear line exactly when no
/// pipe surcharges and no structure floods; otherwise it closes with the
/// lists of those that do.
pub proof fn law_analysis_all_clear(a: AnalysisTables)
    ensures
        analysis_text(a) == "=== STORM SEWER ANALYSIS ===\n\n"@ + pipe_table_text(a.pipes@) + "\n"@
            + node_table_text(a.nodes@) + "\n"@ + analysis_summary_text(
            surcharged_ids(a.pipes@),
            flooding_ids(a.nodes@),
        ),
        (analysis_summary_text(surcharged_ids(a.pipes@), flooding_ids(a.nodes@))
            == "All pipes flow open-channel; no surface flooding.\n"@) == ((forall|i: int|
            0 <= i < a.pipes@.len() ==> !(#[trigger] a.pipes@[i]).surcharged) && (forall|j: int|
            0 <= j < a.nodes@.len() ==> !(#[trigger] a.nodes@[j]).flooding)),
{
    lemma_surcharged_none(a.pipes@);
    lemma_flooding_none(a.nodes@);
    reveal_strlit("All pipes flow open-channel; no surface flooding.\n");
    reveal_strlit("Surcharged pipes: ");
    reveal_strlit("Structures flooding (HGL > rim): ");
    let sur = surcharged_ids(a.pipes@);
    let flo = flooding_ids(a.nodes@);
    let t = analysis_summary_text(sur, flo);
    if sur.len() > 0 {
        assert(t[0] == 'S');
    } else if flo.len() > 0 {
        assert(t[0] == 'S');
    }
}

/// Law: the sizing report closes with the all-clear line exactly when every
/// pipe is adequate as it is; otherwise it lists the pipes to upsize and
/// those with no catalog solution.
pub proof fn law_sizing_all_clear(rows: Seq<SizingRow>)
    ensures
        (sizing_summary_text(
            ids_with_outcome(rows, SizeOutcome::Sized),
            ids_with_outcome(rows, SizeOutcome::NoSolution),
        ) == "\nAll pipes meet design criteria.\n"@) == (forall|i: int|
            0 <= i < rows.len() ==> (#[trigger] rows[i]).outcome == SizeOutcome::Adequate),
{
    lemma_outcome_none(rows, SizeOutcome::Sized);
    lemma_outcome_none(rows, SizeOutcome::NoSolution);
    reveal_strlit("\nAll pipes meet design criteria.\n");
    reveal_strlit("\nPipes to upsize: ");
    reveal_strlit("Pipes with no catalog solution: ");
    let up = ids_with_outcome(rows, SizeOutcome::Sized);
    let no = ids_with_outcome(rows, SizeOutcome::NoSolution);
    let t = sizing_summary_text(up, no);
    if up.len() > 0 {
        assert(t[1] == 'P');
    } else if no.len() > 0 {
        assert(t[0] == 'P');
    }
    if forall|i: int| 0 <= i < rows.len() ==> (#[trigger] rows[i]).outcome == SizeOutcome::Adequate {
        assert(up.len() == 0 && no.len() == 0);
    } else {
        let i = choose|i: int| 0 <= i < rows.len() && (#[trigger] rows[i]).outcome != SizeOutcome::Adequate;
        assert(rows[i].outcome == SizeOutcome::Sized || rows[i].outcome == SizeOutcome::NoSolution);
    }
}


proof fn lemma_flooding_filter(rows: Seq<NodeRow>)
    ensures
        flooding_ids(rows) == rows.filter(|r: NodeRow| r.flooding).map_values(|r: NodeRow| r.id@),
    decreases rows.len(),
{
    reveal(Seq::filter);
    if rows.len() > 0 {
        lemma_flooding_filter(rows.drop_last());
        let f = rows.drop_last().filter(|r: NodeRow| r.flooding);
        if rows.last().flooding {
            assert(f.push(rows.last()).map_values(|r: NodeRow| r.id@) =~= f.map_values(|r: NodeRow| r.id@)
                + seq![rows.last().id@]);
        } else {
            assert(f.map_values(|r: NodeRow| r.id@) + Seq::<Seq<char>>::empty() =~= f.map_values(
                |r: NodeRow| r.id@,
            ));
        }
    }
}

proof fn lemma_surcharged_filter(rows: Seq<PipeRow>)
    ensures
        surcharged_ids(rows) == rows.filter(|r: PipeRow| r.surcharged).map_values(|r: PipeRow| r.id@),
    decreases rows.len(),
{
    reveal(Seq::filter);
    if rows.len() > 0 {
        lemma_surcharged_filter(rows.drop_last());
        let f = rows.drop_last().filter(|r: PipeRow| r.surcharged);
        if rows.last().surcharged {
            assert(f.push(rows.last()).map_values(|r: PipeRow| r.id@) =~= f.map_values(|r: PipeRow| r.id@)
                + seq![rows.last().id@]);
        } else {
            assert(f.map_values(|r: PipeRow| r.id@) + Seq::<Seq<char>>::empty() =~= f.map_values(
                |r: PipeRow| r.id@,
            ));
        }
    }
}

proof fn lemma_outcome_filter(rows: Seq<SizingRow>, o: SizeOutcome)
    ensures
        ids_with_outcome(rows, o) == rows.filter(|r: SizingRow| r.outcome == o).map_values(
            |r: SizingRow| r.pipe_id@,
        ),
    decreases rows.len(),
{
    reveal(Seq::filter);
    if rows.len() > 0 {
        lemma_outcome_filter(rows.drop_last(), o);
        let f = rows.drop_last().filter(|r: SizingRow| r.outcome == o);
        if rows.last().outcome == o {
            assert(f.push(rows.last()).map_values(|r: SizingRow| r.pipe_id@) =~= f.map_values(
                |r: SizingRow| r.pipe_id@,
            ) + seq![rows.last().pipe_id@]);
        } else {
            assert(f.map_values(|r: SizingRow| r.pipe_id@) + Seq::<Seq<char>>::empty() =~= f.map_values(
                |r: SizingRow| r.pipe_id@,
            ));
        }
    }
}

/// Law: the report's lists name exactly the rows they are about, in table
/// order: the flooding structures are the ids of the node rows that flood,
/// the surcharged pipes those of the pipe rows that surcharge, and the pipes
/// with a sizing outcome those of the sizing rows with that outcome; so each
/// such row's id is listed, and a list is as long as the number of its rows.
pub proof fn law_report_lists(pipes: Seq<PipeRow>, nodes: Seq<NodeRow>, sizing: Seq<SizingRow>, o: SizeOutcome)
    ensures
        flooding_ids(nodes) == nodes.filter(|r: NodeRow| r.flooding).map_values(|r: NodeRow| r.id@),
        surcharged_ids(pipes) == pipes.filter(|r: PipeRow| r.surcharged).map_values(|r: PipeRow| r.id@),
        ids_with_outcome(sizing, o) == sizing.filter(|r: SizingRow| r.outcome == o).map_values(
            |r: SizingRow| r.pipe_id@,
        ),
        forall|i: int| 0 <= i < nodes.len() && (#[trigger] nodes[i]).flooding ==> flooding_ids(nodes).contains(
            nodes[i].id@,
        ),
        forall|i: int| 0 <= i < pipes.len() && (#[trigger] pipes[i]).surcharged ==> surcharged_ids(
            pipes,
        ).contains(pipes[i].id@),
        forall|i: int| 0 <= i < sizing.len() && (#[trigger] sizing[i]).outcome == o ==> ids_with_outcome(
            sizing,
            o,
        ).contains(sizing[i].pipe_id@),
{
    lemma_flooding_filter(nodes);
    lemma_surcharged_filter(pipes);
    lemma_outcome_filter(sizing, o);
    assert forall|i: int| 0 <= i < nodes.len() && (#[trigger] nodes[i]).flooding implies flooding_ids(
        nodes,
    ).contains(nodes[i].id@) by {
        let f = nodes.filter(|r: NodeRow| r.flooding);
        nodes.filter_lemma(|r: NodeRow| r.flooding);
        assert(f.contains(nodes[i]));
        let k = choose|k: int| 0 <= k < f.len() && f[k] == nodes[i];
        assert(f.map_values(|r: NodeRow| r.id@)[k] == nodes[i].id@);
    }
    assert forall|i: int| 0 <= i < pipes.len() && (#[trigger] pipes[i]).surcharged implies surcharged_ids(
        pipes,
    ).contains(pipes[i].id@) by {
        let f = pipes.filter(|r: PipeRow| r.surcharged);
        pipes.filter_lemma(|r: PipeRow| r.surcharged);
        assert(f.contains(pipes[i]));
        let k = choose|k: int| 0 <= k < f.len() && f[k] == pipes[i];
        assert(f.map_values(|r: PipeRow| r.id@)[k] == pipes[i].id@);
    }
    assert forall|i: int| 0 <= i < sizing.len() && (#[trigger] sizing[i]).outcome == o implies ids_with_outcome(
        sizing,
        o,
    ).contains(sizing[i].pipe_id@) by {
        let f = sizing.filter(|r: SizingRow| r.outcome == o);
        sizing.filter_lemma(|r: SizingRow| r.outcome == o);
        assert(f.contains(sizing[i]));
        let k = choose|k: int| 0 <= k < f.len() && f[k] == sizing[i];
        assert(f.map_values(|r: SizingRow| r.pipe_id@)[k] == sizing[i].pipe_id@);
    }
}

} // verus!
