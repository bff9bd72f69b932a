use opencad_storm_sewer_plugin::commands::{command_arg, needs_pro, pro_gate, route, SsCommand};
use opencad_storm_sewer_plugin::network::NodeKind;

#[test]
fn routes_plain_commands() {
    assert!(matches!(route("SS_ANALYZE"), Some(SsCommand::Analyze)));
    assert!(matches!(route("SS_REPORT_HTML"), Some(SsCommand::ReportHtml)));
    assert!(matches!(route("SS_MULTIRP"), Some(SsCommand::MultiRp)));
    assert!(matches!(route("SS_SIZE"), Some(SsCommand::Size)));
    assert!(matches!(route("SS_LICENSE"), Some(SsCommand::License)));
    assert!(matches!(route("SS_CATCHMENT"), Some(SsCommand::CatchmentInfo)));
    assert!(route("LINE").is_none());
    assert!(route("SS_UNKNOWN").is_none());
}

#[test]
fn routes_commands_with_arguments() {
    match route("SS_PARAMS   RP 25  ") {
        Some(SsCommand::Params(rest)) => assert_eq!(rest, "RP 25"),
        _ => panic!("expected SS_PARAMS"),
    }
    match route("SS_INLET 100,200 104 110") {
        Some(SsCommand::Place(NodeKind::Inlet, args)) => assert_eq!(args, "100,200 104 110"),
        _ => panic!("expected a placement"),
    }
    assert!(matches!(route("SS_OUTFALL"), Some(SsCommand::PlaceInteractive(NodeKind::Outfall))));
    assert!(matches!(route("SS_PIPE"), Some(SsCommand::PipeInteractive)));
    match route("SS_IMPORTXML C:/My Files/net.xml") {
        Some(SsCommand::ImportXml(p)) => assert_eq!(p, "C:/My Files/net.xml"),
        _ => panic!("expected an import"),
    }
    assert!(matches!(route("SS_IMPORTXML"), Some(SsCommand::ImportXmlHint)));
    assert!(matches!(route("SS_IMPORTXML   "), Some(SsCommand::ImportXmlMissingPath)));
    assert!(matches!(route("SS_EDIT"), Some(SsCommand::EditUsage)));
    match route("SS_ACTIVATE a@b.c hc_live_abcdefgh") {
        Some(SsCommand::Activate(a)) => assert_eq!(a, "a@b.c hc_live_abcdefgh"),
        _ => panic!("expected an activation"),
    }
}

#[test]
fn command_arg_keeps_inner_spaces() {
    assert_eq!(command_arg("SS_LANDXML  a b.xml ").as_deref(), Some("a b.xml"));
    assert_eq!(command_arg("SS_LANDXML"), None);
}

#[test]
fn gate_holds_back_only_pro_commands() {
    let size = route("SS_SIZE").unwrap();
    let lines = pro_gate(&size, false).unwrap();
    assert_eq!(lines[0], "--- Storm Sewer: SS_SIZE is a Pro feature ($29/year) ---");
    assert!(pro_gate(&size, true).is_none());
    let analyze = route("SS_ANALYZE").unwrap();
    assert!(pro_gate(&analyze, false).is_none());
    assert!(needs_pro(&size));
    assert!(!needs_pro(&analyze));
    assert!(needs_pro(&route("SS_REPORT_HTML").unwrap()));
}
