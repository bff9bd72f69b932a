use opencad_storm_sewer_plugin::license::{
    new_license_record, LicenseActivationResult, LicenseValidationMode, FREE_DESKTOP_URL, PURCHASE_URL,
};
use opencad_storm_sewer_plugin::license_cmd::{
    activate_lines, activation_report_lines, is_pro_command, license_lines, mode_debug_name,
    pro_required_lines, ActivateCommand, PRO_COMMANDS,
};

#[test]
fn pro_commands_are_the_deliverables_only() {
    assert!(is_pro_command("SS_REPORT_HTML"));
    assert!(is_pro_command("SS_SIZE"));
    assert!(is_pro_command("SS_MULTIRP"));
    for free in [
        "SS_ANALYZE",
        "SS_REPORT",
        "SS_PROFILE",
        "SS_VALIDATE",
        "SS_PIPE",
        "SS_IMPORTXML",
    ] {
        assert!(!is_pro_command(free), "{free} must stay free");
    }
}

#[test]
fn gate_message_names_command_and_purchase_url() {
    let lines = pro_required_lines("SS_SIZE");
    assert!(lines[0].contains("SS_SIZE"));
    assert!(lines[1].contains(PURCHASE_URL));
    assert!(lines[1].contains("SS_ACTIVATE"));
    assert!(lines[2].contains("Free alternative"));
}

#[test]
fn activate_without_args_prints_usage() {
    let lines = match activate_lines("") {
        ActivateCommand::Lines(l) => l,
        ActivateCommand::Activate { .. } => panic!("nothing to activate"),
    };
    assert!(lines.iter().any(|l| l.contains("Usage: SS_ACTIVATE")));
}

#[test]
fn activate_with_one_token_fails_cleanly() {
    let lines = match activate_lines("onlyanemail@example.com") {
        ActivateCommand::Lines(l) => l,
        ActivateCommand::Activate { .. } => panic!("one word cannot activate"),
    };
    assert!(lines[0].starts_with("Activation failed"));
}

#[test]
fn license_lines_mention_product_and_free_tier() {
    let lines = license_lines(false, &None, 0, "/home/u/HydroComplete/stormsewer-license.json");
    assert!(lines[1].contains("stormsewer"));
    assert!(lines.iter().any(|l| l.contains("stay free")));
}

#[test]
fn pro_gate_names_the_free_desktop_alternative() {
    for cmd in PRO_COMMANDS {
        let text = pro_required_lines(cmd).join("\n");
        assert!(
            text.contains(FREE_DESKTOP_URL),
            "{cmd} gate does not point at the free desktop app: {text}"
        );
        assert!(
            text.contains(PURCHASE_URL),
            "{cmd} gate does not say where to buy: {text}"
        );
        assert!(
            text.contains("Free alternative"),
            "{cmd} gate does not name the free in-plugin command: {text}"
        );
    }
}

#[test]
fn gate_text_is_exact() {
    assert_eq!(
        pro_required_lines("SS_MULTIRP"),
        vec![
            "--- Storm Sewer: SS_MULTIRP is a Pro feature ($29/year) ---".to_string(),
            format!("  Buy a key at {PURCHASE_URL}  then run  SS_ACTIVATE <email> <hc_live_ss_...>"),
            "  Free alternative: change the return period with SS_PARAMS and rerun SS_ANALYZE.".to_string(),
            format!("  Or free: the standalone StormSewer desktop app does this at no cost \u{2014} {FREE_DESKTOP_URL}"),
        ]
    );
}

#[test]
fn activate_reads_email_and_token() {
    match activate_lines("  user@example.com hc_live_abcdefgh ") {
        ActivateCommand::Activate { email, token } => {
            assert_eq!(email, "user@example.com");
            assert_eq!(token, "hc_live_abcdefgh");
        }
        _ => panic!("expected an activation"),
    }
    match activate_lines("someone short") {
        ActivateCommand::Activate { email, token } => {
            assert_eq!(email, "someone");
            assert_eq!(token, "short");
        }
        _ => panic!("two words go on to the activator"),
    }
}

#[test]
fn license_report_lists_status_and_file() {
    let stored = Some(new_license_record(
        "user@example.com",
        "hc_live_abcdefgh",
        "2099-01-01T00:00:00Z",
        "2026-01-01T00:00:00Z",
        "online",
    ));
    let lines = license_lines(false, &stored, 20454 * 86400, "C:/lic.json");
    assert_eq!(lines.len(), 10);
    assert_eq!(lines[0], "=== Storm Sewer License ===");
    assert_eq!(lines[1], "  Product: Storm Sewer for Open CAD Studio (stormsewer)");
    assert!(lines[2].starts_with("  Status: Pro ("));
    assert_eq!(lines[3], "  Validation mode: online");
    assert_eq!(lines[4], "  Last validated: 2026-01-01");
    assert_eq!(lines[6], "  License file: C:/lic.json");
    assert_eq!(lines[8], "  Pro unlocks SS_REPORT_HTML, SS_SIZE, SS_MULTIRP. Drawing, SS_ANALYZE, SS_REPORT, SS_PROFILE and SS_VALIDATE stay free.");
}

#[test]
fn activation_report_shows_mode_and_expiry() {
    let ok = LicenseActivationResult {
        success: true,
        message: "Pro activated.".to_string(),
        mode: LicenseValidationMode::Online,
        expires: "2030-05-06T00:00:00Z".to_string(),
    };
    let lines = activation_report_lines(&ok, "Pro");
    assert_eq!(
        lines,
        vec![
            "=== Storm Sewer Pro Activation ===",
            "  Pro activated.",
            "  Mode: Online",
            "  Expires: 2030-05-06",
            "  Status: Pro",
            "  Unlocked: SS_REPORT_HTML, SS_SIZE, SS_MULTIRP",
        ]
    );
    let bad = LicenseActivationResult {
        success: false,
        message: "nope".to_string(),
        mode: LicenseValidationMode::NoLicense,
        expires: String::new(),
    };
    assert_eq!(
        activation_report_lines(&bad, "Free"),
        vec!["=== Storm Sewer Pro Activation ===", "  Activation failed: nope", "  Status: Free"]
    );
    assert_eq!(mode_debug_name(LicenseValidationMode::NoLicense), "None");
}
