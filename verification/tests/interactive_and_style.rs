use opencad_storm_sewer_plugin::html_report::report_page;
use opencad_storm_sewer_plugin::landxml::{landxml_links, landxml_outcome};
use opencad_storm_sewer_plugin::picking::{PickAction, PipePick, PipePickStep};
use opencad_storm_sewer_plugin::style::{
    assigned_color, count_flagged, style_assignments, update_for, FLOODED_STRUCTURE_COLOR,
    SURCHARGED_PIPE_COLOR,
};

#[test]
fn pipe_two_picks_commit_line() {
    let mut p = PipePick::new();
    assert_eq!(p.on_object_pick(4), PickAction::NeedPoint);
    assert_eq!(p.step, PipePickStep::PickEnd);
    assert_eq!(p.on_object_pick(7), PickAction::Commit { from: 4, to: 7 });
}

#[test]
fn picking_the_start_twice_cancels() {
    let mut p = PipePick::new();
    p.on_object_pick(4);
    assert_eq!(p.on_object_pick(4), PickAction::Cancel);
}

#[test]
fn styling_pairs_handles_with_flags() {
    let a = style_assignments(&vec![10, 11, 12], &vec![true, false, true], &vec![1, 2], &vec![false, true, true]);
    assert_eq!(
        a,
        vec![
            (10, SURCHARGED_PIPE_COLOR),
            (12, SURCHARGED_PIPE_COLOR),
            (2, FLOODED_STRUCTURE_COLOR),
        ]
    );
    assert_eq!((SURCHARGED_PIPE_COLOR, FLOODED_STRUCTURE_COLOR), (1, 6));
    assert_eq!(assigned_color(&a, 12), Some(1));
    assert_eq!(assigned_color(&a, 2), Some(6));
    assert_eq!(assigned_color(&a, 11), None);
    assert_eq!(count_flagged(&vec![false, true, true]), 2);
    assert_eq!(update_for(&vec![5, 9, 9], 9), Some(1));
    assert_eq!(update_for(&vec![5, 9, 9], 3), None);
}

#[test]
fn landxml_pipes_attach_by_name() {
    let names: Vec<String> = vec!["S1".into(), "S2".into(), "S1".into()];
    let ends: Vec<(String, String)> = vec![
        ("S1".into(), "S2".into()),
        ("S2".into(), "S9".into()),
        ("S2".into(), "S1".into()),
    ];
    let links = landxml_links(&names, &ends);
    let got: Vec<(usize, usize, usize)> = links.iter().map(|l| (l.pipe, l.from, l.to)).collect();
    assert_eq!(got, vec![(0, 2, 1), (2, 1, 2)]);
    assert_eq!(landxml_outcome("Net A", 3, 2), Ok("Imported LandXML \"Net A\": 3 structure(s), 2 pipe(s).".to_string()));
    assert_eq!(landxml_outcome("Net A", 0, 0), Err("LandXML: no structures to import".to_string()));
    assert_eq!(
        landxml_outcome("Net A", 3, 0),
        Err("LandXML: structures imported but no pipes could be connected \u{2014} check StartStruct/EndStruct names.".to_string())
    );
}

#[test]
fn html_page_escapes_markup() {
    let page = report_page("a<b>", "Q > 2 & \"x\"\n");
    assert!(page.contains("<title>Storm Sewer report: a&lt;b&gt;</title>"));
    assert!(page.contains("<pre>Q &gt; 2 &amp; &quot;x&quot;\n</pre>"));
    assert!(page.starts_with("<!DOCTYPE html>\n"));
}
