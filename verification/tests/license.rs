use opencad_storm_sewer_plugin::license::{
    attempt_from_reply, is_expiry_readable, is_last_validated_readable, is_status_readable,
    ValidationReply, build_offline_stub_record, complete_activation, format_expiry_date, interpret_validation_reply,
    is_license_fields_valid, is_pro_enabled, is_well_formed_token, last_validated_label,
    license_if_current, new_license_record, online_offline_label, settle_recheck, status_label,
    transport_failure, try_parse_combined_input, user_agent_string, validation_mode_label,
    wrong_product_hint, wrong_product_message, ActivationStep, LicenseActivator, LicenseRecord,
    LicenseValidationMode, ProCheck, PRODUCT_ID, PURCHASE_URL,
};

const DAY: u64 = 86400;
// 2026-01-01T00:00:00Z
const JAN_1_2026: u64 = 20454 * DAY;

fn record(expires: &str, last_validated: &str) -> LicenseRecord {
    new_license_record("user@example.com", "hc_live_abcdefgh", expires, last_validated, "online")
}

#[test]
fn well_formed_token() {
    assert!(is_well_formed_token("hc_live_abcdefgh"));
    assert!(!is_well_formed_token("bad_token"));
}

#[test]
fn parse_combined_input() {
    let (e, t) = try_parse_combined_input("user@example.com hc_live_abcdefgh").unwrap();
    assert_eq!(e, "user@example.com");
    assert_eq!(t, "hc_live_abcdefgh");
}

#[test]
fn accepts_stormsewer_product_only() {
    let record = new_license_record(
        "user@example.com",
        "hc_live_abcdefgh",
        "2099-01-01T00:00:00Z",
        "2026-01-01T00:00:00Z",
        "online",
    );
    assert!(is_license_fields_valid(&record));
    assert_eq!(record.product, PRODUCT_ID);
}

#[test]
fn rejects_opencad_and_civil3d_products() {
    let mut record = new_license_record(
        "user@example.com",
        "hc_live_abcdefgh",
        "2099-01-01T00:00:00Z",
        "2026-01-01T00:00:00Z",
        "online",
    );
    record.product = "civil3d".into();
    assert!(!is_license_fields_valid(&record));
    record.product = "opencad".into();
    assert!(!is_license_fields_valid(&record));
}

#[test]
fn token_needs_prefix_and_length() {
    assert!(!is_well_formed_token("hc_live_abcdefg"));
    assert!(is_well_formed_token("  hc_live_abcdefgh  "));
    assert!(!is_well_formed_token("HC_LIVE_abcdefgh"));
}

#[test]
fn combined_input_needs_email_and_token() {
    assert!(try_parse_combined_input("user@example.com").is_none());
    assert!(try_parse_combined_input("userexample.com hc_live_abcdefgh").is_none());
    assert!(try_parse_combined_input("user@example.com bad_token").is_none());
    let (e, t) = try_parse_combined_input("  a@b.c   hc_live_12345678  ").unwrap();
    assert_eq!(e, "a@b.c");
    assert_eq!(t, "hc_live_12345678");
}

#[test]
fn record_in_force_until_its_expiry_day() {
    let stored = Some(record("2026-01-02T00:00:00Z", "2026-01-01T00:00:00Z"));
    assert!(license_if_current(&stored, JAN_1_2026).is_some());
    assert!(license_if_current(&stored, JAN_1_2026 + DAY - 1).is_some());
    assert!(license_if_current(&stored, JAN_1_2026 + DAY).is_none());
    assert!(license_if_current(&None, JAN_1_2026).is_none());
    let mut other = record("2099-01-01T00:00:00Z", "2026-01-01T00:00:00Z");
    other.product = "opencad".into();
    assert!(!is_pro_enabled(false, &Some(other), JAN_1_2026));
}

#[test]
fn dev_bypass_enables_pro() {
    assert!(is_pro_enabled(true, &None, JAN_1_2026));
    assert!(!is_pro_enabled(false, &None, JAN_1_2026));
}

#[test]
fn messages_name_product_and_shop() {
    assert_eq!(
        wrong_product_message(),
        "This license file is not for Storm Sewer for Open CAD Studio (product=stormsewer)."
    );
    assert!(wrong_product_hint().contains(PURCHASE_URL));
    assert_eq!(user_agent_string("0.3.2"), "StormSewer-OpenCAD/0.3.2");
}

#[test]
fn expiry_date_is_the_first_ten_bytes() {
    assert_eq!(format_expiry_date("2099-01-01T00:00:00Z").as_deref(), Some("2099-01-01"));
    assert_eq!(format_expiry_date("2099-01"), None);
}

#[test]
fn activation_checks_email_and_token_first() {
    let a = LicenseActivator::new();
    match a.activate("no-at-sign", "hc_live_abcdefgh") {
        ActivationStep::Done(r) => {
            assert!(!r.success);
            assert_eq!(r.message, "Enter a valid email address.");
            assert_eq!(r.mode, LicenseValidationMode::NoLicense);
        }
        _ => panic!("expected an immediate failure"),
    }
    match a.activate("user@example.com", "short") {
        ActivationStep::Done(r) => assert_eq!(
            r.message,
            "Activation token must start with hc_live_ and be at least 16 characters."
        ),
        _ => panic!("expected an immediate failure"),
    }
    match a.activate(" user@example.com ", " hc_live_abcdefgh ") {
        ActivationStep::ValidateOnline(req) => {
            assert_eq!(req.url, "https://hydrocomplete.com/api/licensing/validate");
            assert_eq!(req.email, "user@example.com");
            assert_eq!(req.token, "hc_live_abcdefgh");
            assert_eq!(req.product, "stormsewer");
            assert_eq!(req.features, vec!["reports".to_string(), "export".to_string()]);
        }
        _ => panic!("expected a request"),
    }
}

#[test]
fn custom_url_is_used() {
    let a = LicenseActivator::new().with_validate_url("http://localhost:9/v");
    match a.activate("user@example.com", "hc_live_abcdefgh") {
        ActivationStep::ValidateOnline(req) => assert_eq!(req.url, "http://localhost:9/v"),
        _ => panic!("expected a request"),
    }
}

#[test]
fn refresh_needs_a_record_for_this_product() {
    let a = LicenseActivator::new();
    match a.refresh(&None) {
        ActivationStep::Done(r) => {
            assert_eq!(r.message, "No license file to validate. Run SS_ACTIVATE first.")
        }
        _ => panic!("expected a failure"),
    }
    let mut other = record("2099-01-01T00:00:00Z", "2026-01-01T00:00:00Z");
    other.product = "civil3d".into();
    match a.refresh(&Some(other)) {
        ActivationStep::Done(r) => assert_eq!(r.message, wrong_product_message()),
        _ => panic!("expected a failure"),
    }
    match a.refresh(&Some(record("2099-01-01T00:00:00Z", ""))) {
        ActivationStep::ValidateOnline(req) => {
            assert_eq!(req.token, "hc_live_abcdefgh");
            assert_eq!(req.product, "stormsewer");
            assert_eq!(req.features, vec!["reports".to_string(), "export".to_string()]);
        }
        _ => panic!("expected a request"),
    }
}

#[test]
fn valid_reply_builds_online_record() {
    let body = r#"{"valid": true, "license": {"expires": "2030-05-06T00:00:00Z"}, "accessToken": "hc_live_server_token"}"#;
    let attempt = interpret_validation_reply("user@example.com", "hc_live_abcdefgh", 200, body, JAN_1_2026);
    let out = complete_activation("user@example.com", "hc_live_abcdefgh", attempt, false, JAN_1_2026);
    assert!(out.result.success);
    assert_eq!(out.result.mode, LicenseValidationMode::Online);
    assert_eq!(out.result.message, "Pro activated for Storm Sewer for Open CAD Studio (online validation).");
    assert_eq!(out.result.expires, "2030-05-06T00:00:00Z");
    let w = out.write.unwrap();
    assert_eq!(w.token, "hc_live_server_token");
    assert_eq!(w.product, "stormsewer");
    assert_eq!(w.last_validated, "2026-01-01T00:00:00Z");
    assert_eq!(w.validation_mode, "online");
}

#[test]
fn valid_reply_without_expiry_lasts_a_year() {
    let attempt = interpret_validation_reply("u@x.y", "hc_live_abcdefgh", 200, r#"{"valid":true}"#, JAN_1_2026);
    let out = complete_activation("u@x.y", "hc_live_abcdefgh", attempt, false, JAN_1_2026);
    let w = out.write.unwrap();
    assert_eq!(w.expires, "2027-01-01T00:00:00Z");
    assert_eq!(w.token, "hc_live_abcdefgh");
}

#[test]
fn rejected_reply_names_the_other_skus() {
    let attempt = interpret_validation_reply(
        "u@x.y",
        "hc_live_abcdefgh",
        200,
        r#"{"valid": false, "error": "Key is for product opencad."}"#,
        JAN_1_2026,
    );
    let out = complete_activation("u@x.y", "hc_live_abcdefgh", attempt, true, JAN_1_2026);
    assert!(!out.result.success);
    assert!(out.write.is_none());
    assert_eq!(out.result.message, format!("Key is for product opencad. {}", wrong_product_hint()));
}

#[test]
fn http_error_and_bad_json_are_unreachable() {
    let a = interpret_validation_reply("u@x.y", "hc_live_abcdefgh", 503, "", JAN_1_2026);
    let out = complete_activation("u@x.y", "hc_live_abcdefgh", a, false, JAN_1_2026);
    assert_eq!(
        out.result.message,
        format!("Server returned 503. Purchase a Storm Sewer Pro key at {PURCHASE_URL} and try again.")
    );
    let b = interpret_validation_reply("u@x.y", "hc_live_abcdefgh", 200, "not json", JAN_1_2026);
    let out = complete_activation("u@x.y", "hc_live_abcdefgh", b, false, JAN_1_2026);
    assert!(out.result.message.starts_with("Invalid server response."));
}

#[test]
fn dev_build_activates_offline_stub() {
    let a = transport_failure("connection refused".to_string());
    let out = complete_activation("u@x.y", "hc_live_abcdefgh", a, true, JAN_1_2026);
    assert!(out.result.success);
    assert_eq!(out.result.mode, LicenseValidationMode::OfflineStub);
    assert_eq!(out.result.expires, "2027-01-01T00:00:00Z");
    let w = out.write.unwrap();
    assert_eq!(w.validation_mode, "offline-stub");
    assert_eq!(w.last_validated, "2026-01-01T00:00:00Z");
    let stub = build_offline_stub_record("u@x.y", "hc_live_abcdefgh", JAN_1_2026);
    assert_eq!(stub.expires, "2027-01-01T00:00:00Z");
}

#[test]
fn status_lines_follow_the_record() {
    let stored = Some(record("2099-01-01T00:00:00Z", "2026-01-01T00:00:00Z"));
    assert_eq!(
        status_label(false, &stored, JAN_1_2026),
        "Pro (Storm Sewer for Open CAD Studio, licensed to user@example.com, expires 2099-01-01)"
    );
    assert_eq!(status_label(false, &None, JAN_1_2026), "Free");
    assert_eq!(
        status_label(true, &None, JAN_1_2026),
        "Pro (Storm Sewer for Open CAD Studio, dev bypass: STORMSEWER_PRO=1)"
    );
    let old = Some(record("2025-06-01T00:00:00Z", "2025-01-01T00:00:00Z"));
    assert_eq!(
        status_label(false, &old, JAN_1_2026),
        "Expired (Storm Sewer for Open CAD Studio, was user@example.com, expired 2025-06-01)"
    );
    assert_eq!(
        status_label(false, &stored, JAN_1_2026 + 30 * DAY),
        "Re-validation required (Storm Sewer for Open CAD Studio, licensed to user@example.com: no successful check in 30 days; run SS_ACTIVATE)"
    );
    assert_eq!(validation_mode_label(false, &stored), "online");
    assert_eq!(last_validated_label(false, &stored), "2026-01-01");
    assert_eq!(online_offline_label(false, &stored), "online (server validated)");
}

#[test]
fn pro_check_rechecks_weekly_and_throttles() {
    let a = LicenseActivator::new();
    let stored = Some(record("2099-01-01T00:00:00Z", "2026-01-01T00:00:00Z"));
    assert!(matches!(a.pro_check(false, &stored, JAN_1_2026 + 6 * DAY, None), ProCheck::Granted));
    match a.pro_check(false, &stored, JAN_1_2026 + 7 * DAY, None) {
        ProCheck::Recheck(req) => {
            assert_eq!(req.email, "user@example.com");
            assert_eq!(req.url, "https://hydrocomplete.com/api/licensing/validate");
            assert_eq!(req.product, "stormsewer");
        }
        _ => panic!("expected a re-check"),
    }
    let tried = Some(JAN_1_2026 + 7 * DAY);
    assert!(matches!(a.pro_check(false, &stored, JAN_1_2026 + 8 * DAY - 1, tried), ProCheck::Granted));
    assert!(matches!(a.pro_check(false, &stored, JAN_1_2026 + 8 * DAY, tried), ProCheck::Recheck(_)));
    let late = Some(JAN_1_2026 + 30 * DAY);
    assert!(matches!(a.pro_check(false, &stored, JAN_1_2026 + 30 * DAY + 5, late), ProCheck::Denied));
    assert!(matches!(a.pro_check(false, &None, JAN_1_2026, None), ProCheck::Denied));
    assert!(matches!(a.pro_check(true, &None, JAN_1_2026, None), ProCheck::Granted));
}

#[test]
fn recheck_outcomes() {
    let stored = record("2099-01-01T00:00:00Z", "2026-01-01T00:00:00Z");
    let now = JAN_1_2026 + 10 * DAY;
    let ok = interpret_validation_reply("user@example.com", "hc_live_abcdefgh", 200, r#"{"valid":true}"#, now);
    let out = settle_recheck(&stored, ok, now);
    assert!(out.granted && !out.delete);
    assert_eq!(out.write.unwrap().last_validated, "2026-01-11T00:00:00Z");
    let no = interpret_validation_reply("user@example.com", "hc_live_abcdefgh", 200, r#"{"valid":false}"#, now);
    let out = settle_recheck(&stored, no, now);
    assert!(!out.granted && out.delete && out.write.is_none());
    let down = transport_failure("timed out".to_string());
    assert!(settle_recheck(&stored, down, now).granted);
    let down = transport_failure("timed out".to_string());
    let out = settle_recheck(&stored, down, JAN_1_2026 + 30 * DAY);
    assert!(!out.granted && !out.delete);
}

#[test]
fn parsed_reply_decides_the_attempt() {
    let confirmed = Some(ValidationReply {
        valid: Some(true),
        error: None,
        license_expires: Some("2031-02-03T00:00:00Z".to_string()),
        access_token: None,
    });
    let a = attempt_from_reply("u@x.y", "hc_live_abcdefgh", &confirmed, JAN_1_2026);
    let out = complete_activation("u@x.y", "hc_live_abcdefgh", a, false, JAN_1_2026);
    let w = out.write.unwrap();
    assert_eq!((w.expires.as_str(), w.token.as_str()), ("2031-02-03T00:00:00Z", "hc_live_abcdefgh"));

    let unsure = Some(ValidationReply { valid: None, error: None, license_expires: None, access_token: None });
    let a = attempt_from_reply("u@x.y", "hc_live_abcdefgh", &unsure, JAN_1_2026);
    let out = complete_activation("u@x.y", "hc_live_abcdefgh", a, true, JAN_1_2026);
    assert!(!out.result.success);
    assert_eq!(out.result.message, format!("License is not valid on the server. {}", wrong_product_hint()));

    let a = attempt_from_reply("u@x.y", "hc_live_abcdefgh", &None, JAN_1_2026);
    let out = complete_activation("u@x.y", "hc_live_abcdefgh", a, false, JAN_1_2026);
    assert!(out.result.message.starts_with("Invalid server response. Purchase"));
}

#[test]
fn json_fields_reach_the_record() {
    // The reply names a token of its own: the stored record must carry it.
    let body = r#"{"valid": true, "accessToken": "hc_live_rotated_1", "error": 5}"#;
    let a = interpret_validation_reply("u@x.y", "hc_live_abcdefgh", 200, body, JAN_1_2026);
    let out = complete_activation("u@x.y", "hc_live_abcdefgh", a, false, JAN_1_2026);
    assert_eq!(out.write.unwrap().token, "hc_live_rotated_1");
    let body = r#"{"valid": "yes"}"#;
    let a = interpret_validation_reply("u@x.y", "hc_live_abcdefgh", 200, body, JAN_1_2026);
    assert!(complete_activation("u@x.y", "hc_live_abcdefgh", a, false, JAN_1_2026).write.is_none());
}

#[test]
fn readability_checks() {
    let good = record("2099-01-01T00:00:00Z", "2026-01-01T00:00:00Z");
    assert!(is_expiry_readable(&good) && is_status_readable(&good) && is_last_validated_readable(&good));
    let cut = record("2099-01-0\u{e9}T", "2026-01-0\u{e9}");
    assert!(!is_expiry_readable(&cut));
    assert!(!is_last_validated_readable(&cut));
    let early = record("1969-12-31T00:00:00Z", "");
    assert!(!is_expiry_readable(&early));
    assert!(is_last_validated_readable(&early));
}

#[test]
fn confirmed_key_needs_no_check_for_a_week() {
    let now = JAN_1_2026 + 5 * 3600;
    let a = interpret_validation_reply("u@x.y", "hc_live_abcdefgh", 200, r#"{"valid":true}"#, now);
    let record = complete_activation("u@x.y", "hc_live_abcdefgh", a, false, now).write.unwrap();
    let stored = Some(record);
    let activator = LicenseActivator::new();
    assert!(matches!(activator.pro_check(false, &stored, JAN_1_2026 + 7 * DAY - 1, None), ProCheck::Granted));
    assert!(matches!(activator.pro_check(false, &stored, JAN_1_2026 + 7 * DAY, None), ProCheck::Recheck(_)));
    let tried = Some(JAN_1_2026 + 29 * DAY + 10);
    assert!(matches!(activator.pro_check(false, &stored, JAN_1_2026 + 30 * DAY - 1, tried), ProCheck::Granted));
    assert!(matches!(activator.pro_check(false, &stored, JAN_1_2026 + 30 * DAY, tried), ProCheck::Denied));
}

#[test]
fn pro_needs_a_recent_check() {
    let stored = Some(record("2099-01-01T00:00:00Z", "2026-01-01T00:00:00Z"));
    assert!(is_pro_enabled(false, &stored, JAN_1_2026 + 30 * DAY - 1));
    assert!(!is_pro_enabled(false, &stored, JAN_1_2026 + 30 * DAY));
    assert!(status_label(false, &stored, JAN_1_2026 + 30 * DAY - 1).starts_with("Pro"));
    assert!(!status_label(false, &stored, JAN_1_2026 + 30 * DAY).starts_with("Pro"));
    let unchecked = Some(record("2099-01-01T00:00:00Z", ""));
    assert!(!is_pro_enabled(false, &unchecked, JAN_1_2026));
    assert!(is_pro_enabled(true, &unchecked, JAN_1_2026));
}

#[test]
fn rejected_key_is_deleted_on_refresh_too() {
    let no = interpret_validation_reply("u@x.y", "hc_live_abcdefgh", 200, r#"{"valid":false}"#, JAN_1_2026);
    let out = complete_activation("u@x.y", "hc_live_abcdefgh", no, false, JAN_1_2026);
    assert!(out.delete && out.write.is_none() && !out.result.success);
    let down = transport_failure("timed out".to_string());
    assert!(!complete_activation("u@x.y", "hc_live_abcdefgh", down, false, JAN_1_2026).delete);
    let ok = interpret_validation_reply("u@x.y", "hc_live_abcdefgh", 200, r#"{"valid":true}"#, JAN_1_2026);
    assert!(!complete_activation("u@x.y", "hc_live_abcdefgh", ok, false, JAN_1_2026).delete);
}
