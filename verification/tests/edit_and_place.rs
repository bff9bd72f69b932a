use opencad_storm_sewer_plugin::edit::{
    bad_value_message, parse_edit_args, pipe_field, structure_field, usage, EditField,
};
use opencad_storm_sewer_plugin::placement::{
    PipeArgs,
    is_coordinate_mode, parse_handle, pipe_args, structure_numbers_start, usage_inlet, usage_junction,
    usage_outfall, usage_pipe_coords, usage_pipe_handles,
};

#[test]
fn edit_args_pair_fields_with_values() {
    let req = parse_edit_args("12 Invert 103.5 RIM 110 dangling").unwrap();
    assert_eq!(req.handle, 12);
    assert_eq!(
        req.changes,
        vec![("invert".to_string(), "103.5".to_string()), ("rim".to_string(), "110".to_string())]
    );
    assert_eq!(parse_edit_args("12 invert").err().unwrap(), usage());
    assert_eq!(parse_edit_args("x invert 1").err().unwrap(), "Invalid entity handle");
}

#[test]
fn edit_fields_by_entity_kind() {
    assert_eq!(structure_field("tc_inlet"), Ok(EditField::Tc));
    assert_eq!(pipe_field("dia"), Ok(EditField::Diameter));
    assert_eq!(pipe_field("mannings"), Ok(EditField::N));
    assert_eq!(structure_field("diameter").err().unwrap(), "Unknown structure field: diameter");
    assert_eq!(pipe_field("rim").err().unwrap(), "Unknown pipe field: rim");
    assert_eq!(bad_value_message(EditField::From, "zz"), "bad from handle: zz");
}

#[test]
fn placement_usage_lines() {
    assert!(usage_inlet().starts_with("SS_INLET <x>,<y>"));
    assert_eq!(usage_junction(), "SS_JUNCTION <x>,<y> [invert] [rim] [area] [C]");
    assert!(usage_outfall().contains("SS_OUTFALL 500,0 100 106"));
    assert!(usage_pipe_handles().contains("SS_PIPE 1 2 1.5 0.013"));
    assert!(usage_pipe_coords().ends_with("snaps to nearest structures"));
}

#[test]
fn placement_argument_forms() {
    assert_eq!(parse_handle(" 42 "), Some(42));
    assert_eq!(parse_handle("4x"), None);
    assert_eq!(structure_numbers_start("100,200"), 1);
    assert_eq!(structure_numbers_start("100"), 2);
    let t = |v: &[&str]| v.iter().map(|s| s.to_string()).collect::<Vec<String>>();
    assert!(is_coordinate_mode(&t(&["100,200", "300,400"]), &vec![false, false]));
    assert!(!is_coordinate_mode(&t(&["1", "2"]), &vec![true, true]));
    assert!(is_coordinate_mode(&t(&["0.5", "2", "3", "4"]), &vec![true, true, true, true]));
    assert!(!is_coordinate_mode(&t(&["1", "2", "1.5", "0.013"]), &vec![true, true, true, true]));
    assert!(!is_coordinate_mode(&t(&["1"]), &vec![true]));
}

fn words(v: &[&str]) -> (Vec<String>, Vec<bool>) {
    let w: Vec<String> = v.iter().map(|s| s.to_string()).collect();
    let n: Vec<bool> = v.iter().map(|s| s.trim().replace(',', ".").parse::<f64>().is_ok()).collect();
    (w, n)
}

#[test]
fn pipe_arguments_pick_the_reading() {
    let (w, n) = words(&["100,200", "300,400", "1.5"]);
    assert_eq!(pipe_args(&w, &n), Ok(PipeArgs::CommaPoints { end_to: 2, numbers_from: 2 }));
    let (w, n) = words(&["100,200", "300", "400", "1.5"]);
    assert_eq!(pipe_args(&w, &n), Ok(PipeArgs::CommaPoints { end_to: 3, numbers_from: 2 }));
    let (w, n) = words(&["100", "200,300", "400"]);
    assert_eq!(pipe_args(&w, &n), Ok(PipeArgs::CommaPoints { end_to: 2, numbers_from: 3 }));
    let (w, n) = words(&["0.5", "0", "500", "0", "2"]);
    assert_eq!(pipe_args(&w, &n), Ok(PipeArgs::FourNumbers));
    let (w, n) = words(&["-10", "0", "500", "0"]);
    assert_eq!(pipe_args(&w, &n), Ok(PipeArgs::FourNumbers));
    let (w, n) = words(&["1", "2", "1.5", "0.013"]);
    assert_eq!(pipe_args(&w, &n), Ok(PipeArgs::Handles { from: 1, to: 2 }));
    let (w, n) = words(&["1", "2", "1.5"]);
    assert_eq!(pipe_args(&w, &n), Ok(PipeArgs::Handles { from: 1, to: 2 }));
}

#[test]
fn pipe_arguments_refused() {
    let (w, n) = words(&["1"]);
    assert_eq!(
        pipe_args(&w, &n),
        Err(format!(
            "Expected two handles or two coordinate pairs. {} or {}",
            usage_pipe_handles(),
            usage_pipe_coords()
        ))
    );
    let (w, n) = words(&["a", "2"]);
    assert_eq!(pipe_args(&w, &n), Err("Invalid from_handle".to_string()));
    let (w, n) = words(&["1", "b"]);
    assert_eq!(pipe_args(&w, &n), Err("Invalid to_handle".to_string()));
}
