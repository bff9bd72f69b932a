use opencad_storm_sewer_plugin::params::{
    apply_params, not_a_number_message, return_period_message, ParamsChange, RealParam,
};

#[test]
fn sets_return_period() {
    match apply_params("RP 25").unwrap() {
        ParamsChange::ReturnPeriod(rp) => assert_eq!(rp, 25),
        _ => panic!("expected a return period"),
    }
}

#[test]
fn sets_inlet_kind() {
    match apply_params("INLETKIND combo").unwrap() {
        ParamsChange::InletKind(kind) => assert_eq!(kind, "combo"),
        _ => panic!("expected an inlet kind"),
    }
}

#[test]
fn sets_idf_coefficients() {
    match apply_params("IDF 70 12 0.75").unwrap() {
        ParamsChange::Idf { rp, a, b, c } => {
            assert_eq!(rp, None);
            assert!((a.parse::<f64>().unwrap() - 70.0).abs() < 1e-9);
            assert_eq!(b, "12");
            assert_eq!(c, "0.75");
        }
        _ => panic!("expected IDF coefficients"),
    }
}

#[test]
fn empty_rest_shows_summary() {
    assert!(matches!(apply_params("   ").unwrap(), ParamsChange::Show));
}

#[test]
fn keys_ignore_ascii_case() {
    assert!(matches!(apply_params("return 10").unwrap(), ParamsChange::ReturnPeriod(10)));
    assert!(matches!(apply_params("reset").unwrap(), ParamsChange::Reset));
    match apply_params("jk 0.5").unwrap() {
        ParamsChange::Real(RealParam::JunctionK, v) => assert_eq!(v, "0.5"),
        _ => panic!("expected the junction loss"),
    }
}

#[test]
fn idf_with_return_period() {
    match apply_params("IDF 100 60 10 0.8").unwrap() {
        ParamsChange::Idf { rp, a, b, c } => {
            assert_eq!(rp, Some(100));
            assert_eq!((a.as_str(), b.as_str(), c.as_str()), ("60", "10", "0.8"));
        }
        _ => panic!("expected IDF coefficients"),
    }
    assert_eq!(apply_params("IDF x 60 10 0.8").err().unwrap(), "IDF return period must be integer");
    assert_eq!(
        apply_params("IDF 60 10").err().unwrap(),
        "SS_PARAMS IDF [rp] <a> <b> <c>  (e.g. SS_PARAMS IDF 60 10 0.8)"
    );
}

#[test]
fn return_period_errors() {
    assert_eq!(
        apply_params("RP").err().unwrap(),
        "SS_PARAMS RP needs return period years (e.g. SS_PARAMS RP 25)"
    );
    assert_eq!(apply_params("RP 2.5").err().unwrap(), "return period must be an integer year");
    assert_eq!(apply_params("RP -5").err().unwrap(), "return period must be an integer year");
    assert!(matches!(apply_params("RP +5").unwrap(), ParamsChange::ReturnPeriod(5)));
}

#[test]
fn tailwater_forms() {
    assert!(matches!(apply_params("TAILWATER none").unwrap(), ParamsChange::FreeTailwater));
    assert!(matches!(apply_params("tw Free").unwrap(), ParamsChange::FreeTailwater));
    match apply_params("TW 100.5e0").unwrap() {
        ParamsChange::Tailwater(v) => assert_eq!(v, "100.5E0"),
        _ => panic!("expected an elevation"),
    }
    assert_eq!(apply_params("TAILWATER").err().unwrap(), "SS_PARAMS TAILWATER <elev_ft> | NONE");
}

#[test]
fn real_keys_need_a_value() {
    let cases = [
        ("MINTC", "SS_PARAMS MINTC <minutes>"),
        ("JUNCTIONK", "SS_PARAMS JUNCTIONK <k>"),
        ("VMIN", "SS_PARAMS VMIN <ft/s>"),
        ("VMAX", "SS_PARAMS VMAX <ft/s>"),
        ("PFULL", "SS_PARAMS MAXFULL <percent>"),
        ("CURBOPEN", "SS_PARAMS CURBLEN <ft>"),
        ("GRATE", "SS_PARAMS INLETLEN <ft>"),
        ("CURBDEPTH", "SS_PARAMS INLETD <ft>"),
        ("GUTTERS", "SS_PARAMS INLETS <ft/ft>"),
        ("INLET", "SS_PARAMS INLETKIND grate|curb|combo|sag"),
    ];
    for (key, usage) in cases {
        assert_eq!(apply_params(key).err().unwrap(), usage);
    }
    match apply_params("MAXFULL 85 extra").unwrap() {
        ParamsChange::Real(RealParam::MaxPctFull, v) => assert_eq!(v, "85"),
        _ => panic!("expected the percent full"),
    }
}

#[test]
fn unknown_key_lists_the_keys() {
    assert_eq!(
        apply_params("bogus 1").err().unwrap(),
        "Unknown SS_PARAMS key `BOGUS`. Keys: RP, IDF, TAILWATER, MINTC, JUNCTIONK, VMIN, VMAX, MAXFULL, INLETKIND, INLETLEN, CURBLEN, INLETD, INLETS, RESET"
    );
}

#[test]
fn messages() {
    assert_eq!(return_period_message(25), "Design return period set to 25 yr.");
    assert_eq!(not_a_number_message("abc"), "`abc` is not a number");
}
