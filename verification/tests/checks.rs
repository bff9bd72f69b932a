use opencad_storm_sewer_plugin::network::{assemble_topology, kind_label, kind_str, parse_kind, NodeKind};
use opencad_storm_sewer_plugin::validation::{
    validate_entities, EntityFacts, PipeFacts, StructureFacts, ValidationReport,
};

fn structure(handle: u64, kind: NodeKind, rim: f64, invert: f64) -> EntityFacts {
    let (area, c) = (1.0f64, 0.7f64);
    EntityFacts {
        handle,
        structure: Some(StructureFacts {
            kind,
            rim_not_above_invert: rim <= invert,
            rim_text: format!("{rim:.2}"),
            invert_text: format!("{invert:.2}"),
            area_not_positive: area <= 0.0,
            c_unusual: c <= 0.0 || c > 1.0,
            c_text: format!("{c:.2}"),
        }),
        pipe: None,
        catchment_readable: false,
        has_struct_record: true,
        has_pipe_record: false,
        has_catchment_record: false,
    }
}

fn pipe(handle: u64, from: u64, to: u64) -> EntityFacts {
    EntityFacts {
        handle,
        structure: None,
        pipe: Some(PipeFacts { diameter_not_positive: false, n_not_positive: false, from, to }),
        catchment_readable: false,
        has_struct_record: false,
        has_pipe_record: true,
        has_catchment_record: false,
    }
}

#[test]
fn errors_when_no_structures() {
    assert!(assemble_topology(&vec![], &vec![]).is_err());
}

#[test]
fn dangling_pipe_is_reported() {
    assert!(assemble_topology(&vec![1], &vec![(1, 99)]).is_err());
}

#[test]
fn topology_names_nodes_and_pipes() {
    let t = assemble_topology(&vec![7, 9, 12], &vec![(7, 9), (9, 44), (9, 12)]).unwrap();
    assert_eq!(t.node_ids, vec!["N1", "N2", "N3"]);
    assert_eq!(t.links.len(), 2);
    assert_eq!((t.links[0].id.as_str(), t.links[0].from.as_str(), t.links[0].to.as_str()), ("P1", "N1", "N2"));
    assert_eq!((t.links[1].id.as_str(), t.links[1].from.as_str(), t.links[1].to.as_str()), ("P3", "N2", "N3"));
    assert_eq!(t.links[1].source, 2);
    assert_eq!(
        assemble_topology(&vec![1, 2], &vec![(5, 6)]).err().unwrap(),
        "No connected storm-sewer pipes (2 structure(s) found, 1 dangling pipe(s)). Use Pipe Run to connect structures."
    );
    assert_eq!(
        assemble_topology(&vec![], &vec![]).err().unwrap(),
        "No storm-sewer structures in the drawing \u{2014} place Inlet/Junction/Outfall first."
    );
}

#[test]
fn kinds_read_back() {
    for k in [NodeKind::Inlet, NodeKind::Junction, NodeKind::Outfall] {
        assert_eq!(parse_kind(kind_str(k)), k);
    }
    assert_eq!(parse_kind("manhole"), NodeKind::Inlet);
    assert_eq!(kind_label(NodeKind::Outfall), "Outfall");
}

#[test]
fn catches_rim_below_invert() {
    let e = structure(1, NodeKind::Inlet, 105.0, 110.0);
    let r = validate_entities(&vec![e]);
    assert!(!r.warnings.is_empty());
    assert_eq!(r.warnings[0], "Handle 1: rim (105.00) <= invert (110.00)");
}

#[test]
fn errors_without_structures() {
    let r = validate_entities(&vec![]);
    assert!(!r.ok());
    assert_eq!(r.errors, vec!["No storm-sewer structures in drawing"]);
}

#[test]
fn warns_dangling_pipe_handle() {
    let r = validate_entities(&vec![pipe(9, 1, 2)]);
    assert!(r.warnings.len() >= 2);
    assert_eq!(
        r.warnings,
        vec![
            "Handle 9: pipe references missing from-structure 1",
            "Handle 9: pipe references missing to-structure 2",
        ]
    );
}

#[test]
fn connected_network_validates_clean() {
    let r = validate_entities(&vec![
        structure(1, NodeKind::Inlet, 110.0, 104.0),
        structure(2, NodeKind::Outfall, 106.0, 100.0),
        pipe(3, 1, 2),
    ]);
    assert!(r.ok());
    assert!(r.warnings.is_empty());
    let lonely = validate_entities(&vec![structure(1, NodeKind::Inlet, 110.0, 104.0)]);
    assert_eq!(lonely.warnings, vec!["Structures found but no tagged pipes"]);
    assert!(ValidationReport::new().ok());
}

fn tagged(handle: u64, pipe_record: bool, catchment_record: bool, catchment_readable: bool) -> EntityFacts {
    EntityFacts {
        handle,
        structure: None,
        pipe: None,
        catchment_readable,
        has_struct_record: false,
        has_pipe_record: pipe_record,
        has_catchment_record: catchment_record,
    }
}

#[test]
fn only_unreadable_records_are_incomplete() {
    let r = validate_entities(&vec![
        structure(1, NodeKind::Inlet, 110.0, 104.0),
        tagged(5, true, false, false),
        tagged(6, false, true, false),
        tagged(7, false, true, true),
    ]);
    assert_eq!(
        r.warnings,
        vec![
            "Handle 5: incomplete STORMSEWER_PIPE XDATA",
            "Handle 6: incomplete STORMSEWER_CATCHMENT XDATA",
            "Structures found but no tagged pipes",
        ]
    );
}

#[test]
fn ok_exactly_with_structures_and_good_diameters() {
    let mut bad = pipe(3, 1, 2);
    bad.pipe.as_mut().unwrap().diameter_not_positive = true;
    let r = validate_entities(&vec![structure(1, NodeKind::Inlet, 110.0, 104.0), bad]);
    assert!(!r.ok());
    assert_eq!(r.errors, vec!["Handle 3: pipe diameter <= 0"]);
    assert!(!validate_entities(&vec![pipe(3, 1, 2)]).ok());
    assert!(validate_entities(&vec![structure(1, NodeKind::Inlet, 100.0, 104.0)]).ok());
}
