use opencad_storm_sewer_plugin::report::{
    analysis_summary, demo_report, format_analysis, format_multi_rp, format_sizing, full_report,
    inlet_section, join_names, report_text, report_text_from, sizing_summary, AnalysisTables,
    InletRow, PeakFlowRow, ReturnPeriodRun,
};
use opencad_storm_sewer_plugin::tables::{
    node_table, pipe_table, sizing_table, NodeRow, PipeRow, SizeOutcome, SizingRow,
};

fn f(x: f64, w: usize, p: usize) -> String {
    format!("{:>w$.p$}", x, w = w, p = p)
}

fn prec(x: f64, p: usize) -> String {
    format!("{:.p$}", x, p = p)
}

fn pipe(id: &str, from: &str, to: &str, q: f64, surcharged: bool, full: bool) -> PipeRow {
    PipeRow {
        id: id.into(),
        from: from.into(),
        to: to.into(),
        slope: prec(0.0125, 4),
        tc: prec(12.0, 1),
        intensity: prec(3.456, 2),
        design_q: prec(q, 2),
        capacity: prec(5.1, 2),
        pct_full: prec(0.48 * 100.0, 1),
        velocity: prec(4.2, 2),
        normal_depth: if full { None } else { Some(prec(0.55, 2)) },
        hgl_up: Some(prec(104.25, 2)),
        hgl_dn: None,
        surcharged,
    }
}

fn expected_pipe_line(id: &str, from: &str, to: &str, q: f64, surcharged: bool, full: bool) -> String {
    let yn = if full { "  full".to_string() } else { f(0.55, 6, 2) };
    format!(
        "{:<6} {:<6} {:<6} {} {} {} {} {} {} {} {} {} {}  {}\n",
        id,
        from,
        to,
        f(0.0125, 7, 4),
        f(12.0, 5, 1),
        f(3.456, 6, 2),
        f(q, 6, 2),
        f(5.1, 6, 2),
        f(0.48 * 100.0, 6, 1),
        f(4.2, 6, 2),
        yn,
        f(104.25, 8, 2),
        "      --",
        if surcharged { "SURCHARGED" } else { "ok" },
    )
}

const PIPE_HEAD: &str = "Pipe   From   To     Slope    Tc    i      Q      Cap    %Full  V      yn     HGLup    HGLdn    Status\n                     ft/ft    min   in/hr  cfs    cfs    %      ft/s   ft     ft       ft\n";

fn node(id: &str, flooding: bool) -> NodeRow {
    NodeRow {
        id: id.into(),
        tc: prec(12.0, 1),
        rim: prec(110.0, 2),
        hgl: prec(104.25, 2),
        freeboard: prec(110.0 - 104.25, 2),
        flooding,
    }
}

fn expected_node_line(id: &str, flooding: bool) -> String {
    format!(
        "{:<6} {} {} {} {}  {}\n",
        id,
        f(12.0, 7, 1),
        f(110.0, 8, 2),
        f(104.25, 8, 2),
        f(110.0 - 104.25, 9, 2),
        if flooding { "FLOODING" } else { "ok" },
    )
}

#[test]
fn pipe_table_matches_fixed_layout() {
    let rows = vec![
        pipe("P1", "N1", "N2", 2.45, false, false),
        pipe("P22", "N2", "OUT", 12.5, true, true),
    ];
    let expected = format!(
        "{}{}\n{}{}",
        PIPE_HEAD,
        "-".repeat(110),
        expected_pipe_line("P1", "N1", "N2", 2.45, false, false),
        expected_pipe_line("P22", "N2", "OUT", 12.5, true, true),
    );
    assert_eq!(pipe_table(&rows), expected);
}

#[test]
fn long_ids_are_not_cut() {
    let rows = vec![pipe("PIPE-LONG-1", "N1", "N2", 1.0, false, false)];
    let t = pipe_table(&rows);
    assert!(t.contains("\nPIPE-LONG-1 N1     N2     "));
}

#[test]
fn node_table_matches_fixed_layout() {
    let rows = vec![node("N1", false), node("N2", true)];
    let expected = format!(
        "Node   Tc(min)  Rim(ft)   HGL(ft)   Freeboard  Status\n{}\n{}{}",
        "-".repeat(60),
        expected_node_line("N1", false),
        expected_node_line("N2", true),
    );
    assert_eq!(node_table(&rows), expected);
}

fn sizing_row(id: &str, cur_ft: f64, rec_ft: f64, outcome: SizeOutcome, note: &str) -> SizingRow {
    SizingRow {
        pipe_id: id.into(),
        design_q: prec(8.25, 2),
        slope: prec(0.005, 4),
        current_in: (cur_ft * 12.0f64).round() as i32,
        recommended_in: (rec_ft * 12.0f64).round() as i32,
        pct_full: prec(0.72 * 100.0, 1),
        velocity: prec(5.5, 2),
        outcome,
        note: note.into(),
    }
}

fn expected_sizing_line(id: &str, cur_ft: f64, rec_ft: f64, status: &str) -> String {
    let dia_in = |d: f64| format!("{}\"", (d * 12.0).round() as i32);
    format!(
        "{:<6} {} {} {} {} {} {}  {}\n",
        id,
        f(8.25, 6, 2),
        f(0.005, 7, 4),
        format!("{:>6}", dia_in(cur_ft)),
        format!("{:>6}", dia_in(rec_ft)),
        f(0.72 * 100.0, 6, 1),
        f(5.5, 6, 2),
        status,
    )
}

#[test]
fn sizing_report_lists_upsized_and_failed() {
    let rows = vec![
        sizing_row("P1", 1.25, 1.25, SizeOutcome::Adequate, "P1: 15\" is adequate."),
        sizing_row("P2", 1.5, 2.0, SizeOutcome::Sized, "P2: upsize to 24\"."),
        sizing_row("P3", 1.5, 1.5, SizeOutcome::NoSolution, "P3: no catalog size."),
    ];
    let table = format!(
        "Pipe   Q(cfs)  Slope    Current  Rec'd    %Full  V(ft/s)  Status\n{}\n{}{}{}",
        "-".repeat(72),
        expected_sizing_line("P1", 1.25, 1.25, "ok"),
        expected_sizing_line("P2", 1.5, 2.0, "UPSIZE"),
        expected_sizing_line("P3", 1.5, 1.5, "NO SIZE"),
    );
    assert_eq!(sizing_table(&rows), table);
    let expected = format!(
        "=== STORM SEWER PIPE SIZING ===\n\n{}\nP1: 15\" is adequate.\nP2: upsize to 24\".\nP3: no catalog size.\n\nPipes to upsize: P2\nPipes with no catalog solution: P3\n",
        table
    );
    assert_eq!(format_sizing(&rows), expected);
}

#[test]
fn sizing_report_all_clear() {
    let rows = vec![sizing_row("P1", 1.0, 1.0, SizeOutcome::Adequate, "fine")];
    assert!(format_sizing(&rows).ends_with("fine\n\nAll pipes meet design criteria.\n"));
    assert_eq!(format_sizing(&vec![]).matches('\n').count(), 7);
}

#[test]
fn negative_inches_keep_their_sign() {
    let rows = vec![SizingRow {
        pipe_id: "P9".into(),
        design_q: "0.00".into(),
        slope: "0.0000".into(),
        current_in: -3,
        recommended_in: 120,
        pct_full: "0.0".into(),
        velocity: "0.00".into(),
        outcome: SizeOutcome::NoSolution,
        note: String::new(),
    }];
    let line = format!(
        "{:<6} {:>6} {:>7} {:>6} {:>6} {:>6} {:>6}  {}\n",
        "P9", "0.00", "0.0000", "-3\"", "120\"", "0.0", "0.00", "NO SIZE"
    );
    assert!(sizing_table(&rows).ends_with(&line));
}

#[test]
fn analysis_report_flags_problems() {
    let a = AnalysisTables {
        pipes: vec![
            pipe("P1", "N1", "N2", 2.45, true, false),
            pipe("P2", "N2", "OUT", 3.0, true, false),
        ],
        nodes: vec![node("N1", false), node("N2", true)],
    };
    let text = format_analysis(&a);
    assert!(text.starts_with("=== STORM SEWER ANALYSIS ===\n\nPipe   From"));
    assert!(text.ends_with(
        "\nSurcharged pipes: P1, P2\nStructures flooding (HGL > rim): N2\n"
    ));
    assert_eq!(
        text,
        format!(
            "=== STORM SEWER ANALYSIS ===\n\n{}\n{}\nSurcharged pipes: P1, P2\nStructures flooding (HGL > rim): N2\n",
            pipe_table(&a.pipes),
            node_table(&a.nodes)
        )
    );
}

#[test]
fn analysis_report_all_clear() {
    let a = AnalysisTables { pipes: vec![pipe("P1", "N1", "N2", 1.0, false, false)], nodes: vec![node("N1", false)] };
    assert!(format_analysis(&a).ends_with("\nAll pipes flow open-channel; no surface flooding.\n"));
}

#[test]
fn summaries_join_ids() {
    assert_eq!(join_names(&vec!["A".to_string(), "B".to_string(), "C".to_string()]).iter().collect::<String>(), "A, B, C");
    assert_eq!(analysis_summary(&vec![], &vec!["N3".to_string()]), "Structures flooding (HGL > rim): N3\n");
    assert_eq!(sizing_summary(&vec![], &vec![]), "\nAll pipes meet design criteria.\n");
}

#[test]
fn inlet_section_only_when_inlets_take_flow() {
    assert_eq!(inlet_section(&vec![]), "");
    let rows = vec![
        InletRow { id: "N1".into(), design_q: prec(2.5, 2), capacity: prec(3.25, 2), ok: true },
        InletRow { id: "N2".into(), design_q: prec(4.0, 2), capacity: prec(1.5, 2), ok: false },
    ];
    let expected = format!(
        "\n=== INLET CAPACITY (HEC-22 grate, simplified) ===\nNode   Q(cfs)  Cap(cfs)  Status\n{}{}",
        format!("{:<6} {:>6.2} {:>8.2}  {}\n", "N1", 2.5, 3.25, "ok"),
        format!("{:<6} {:>6.2} {:>8.2}  {}\n", "N2", 4.0, 1.5, "BYPASS"),
    );
    assert_eq!(inlet_section(&rows), expected);
    let a = AnalysisTables { pipes: vec![], nodes: vec![] };
    assert_eq!(full_report(&a, &rows), format!("{}{}", format_analysis(&a), expected));
}

#[test]
fn report_of_failed_run() {
    let e: Result<AnalysisTables, String> = Err("no outfall".to_string());
    assert_eq!(report_text(&e), "storm-sewer analysis error: no outfall");
    assert_eq!(demo_report(&e), "storm-sewer analysis error: no outfall");
    assert_eq!(report_text_from(Err("line 3: bad node".to_string())), Err("line 3: bad node".to_string()));
    let ok = AnalysisTables { pipes: vec![], nodes: vec![] };
    let expected = format_analysis(&ok);
    assert_eq!(report_text_from(Ok(ok)), Ok(expected));
}

#[test]
fn multi_rp_table() {
    let runs: Result<Vec<ReturnPeriodRun>, String> = Ok(vec![
        ReturnPeriodRun {
            rp: 10,
            pipes: vec![
                PeakFlowRow { id: "P1".into(), design_q: prec(2.0, 2), surcharged: false },
                PeakFlowRow { id: "P2".into(), design_q: prec(3.5, 2), surcharged: true },
            ],
        },
        ReturnPeriodRun { rp: 100, pipes: vec![PeakFlowRow { id: "P1".into(), design_q: prec(4.75, 2), surcharged: true }] },
    ]);
    let mut expected = String::from("=== MULTI RETURN-PERIOD PEAK FLOWS ===\n\n");
    expected.push_str("RP(yr)  Pipe   Q(cfs)   Surcharged\n");
    expected.push_str(&"-".repeat(40));
    expected.push('\n');
    for (rp, rows) in [(10u32, vec![("P1", 2.0, false), ("P2", 3.5, true)]), (100u32, vec![("P1", 4.75, true)])] {
        for (id, q, s) in rows {
            let flag = if s { "yes" } else { "no" };
            expected.push_str(&format!("{rp:<7} {:<6} {}  {flag}\n", id, f(q, 6, 2)));
        }
        expected.push('\n');
    }
    assert_eq!(format_multi_rp(&runs), expected);
    let err: Result<Vec<ReturnPeriodRun>, String> = Err("IDF curve missing".to_string());
    assert!(format_multi_rp(&err).ends_with("----\nerror: IDF curve missing\n"));
}
