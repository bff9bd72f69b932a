//! `SS_LICENSE` / `SS_ACTIVATE` command text and the Pro gate message.
//!
//! Functions returning the lines for the OCS command line.

use vstd::prelude::*;

use crate::license::{
    expiry_date_text, last_validated_label, last_validated_readable, last_validated_text,
    online_offline_label, online_offline_text, status_label, status_readable, status_text,
    validation_mode_label, validation_mode_text, combined_input, fields_of, try_parse_combined_input,
    LicenseActivationResult, LicenseRecord, LicenseValidationMode, PRODUCT_ID, PRODUCT_LABEL,
    PURCHASE_URL, FREE_DESKTOP_URL,
};
use crate::text::{append_str, chars_eq_str, chars_of, split_words, string_of, take_bytes, trim, trim_str, words, byte_len};

verus! {

/// The text of each line.
pub open spec fn lines_text(v: Seq<String>) -> Seq<Seq<char>> {
    v.map_values(|s: String| s@)
}

/// Commands that require an active Pro license. Everything else stays free.
pub const PRO_COMMANDS: [&'static str; 3] = ["SS_REPORT_HTML", "SS_SIZE", "SS_MULTIRP"];

/// The Pro commands, joined as the license text lists them.
pub open spec fn pro_commands_joined() -> Seq<char> {
    "SS_REPORT_HTML, SS_SIZE, SS_MULTIRP"@
}

/// The deliverables that need a Pro license.
pub open spec fn is_pro(cmd: Seq<char>) -> bool {
    cmd == "SS_REPORT_HTML"@ || cmd == "SS_SIZE"@ || cmd == "SS_MULTIRP"@
}

pub fn is_pro_command(cmd: &str) -> (r: bool)
    ensures
        r == is_pro(cmd@),
{
    let c = chars_of(cmd);
    chars_eq_str(&c, "SS_REPORT_HTML") || chars_eq_str(&c, "SS_SIZE") || chars_eq_str(
        &c,
        "SS_MULTIRP",
    )
}

/// The free way to get what a Pro command gives.
pub open spec fn free_alternative(cmd: Seq<char>) -> Seq<char> {
    if cmd == "SS_REPORT_HTML"@ {
        "  Free alternative: SS_REPORT prints the same Rational + Manning + HGL table to the command line."@
    } else if cmd == "SS_SIZE"@ {
        "  Free alternative: SS_ANALYZE flags surcharged pipes; adjust diameters with SS_EDIT."@
    } else if cmd == "SS_MULTIRP"@ {
        "  Free alternative: change the return period with SS_PARAMS and rerun SS_ANALYZE."@
    } else {
        "  Free alternative: SS_ANALYZE / SS_REPORT / SS_PROFILE."@
    }
}

/// Lines pushed when a Pro command is invoked without a license.
pub open spec fn pro_required_text(cmd: Seq<char>) -> Seq<Seq<char>> {
    seq![
        "--- Storm Sewer: "@ + cmd + " is a Pro feature ($29/year) ---"@,
        "  Buy a key at "@ + PURCHASE_URL@ + "  then run  SS_ACTIVATE <email> <hc_live_ss_...>"@,
        free_alternative(cmd),
        "  Or free: the standalone StormSewer desktop app does this at no cost \u{2014} "@
            + FREE_DESKTOP_URL@,
    ]
}

pub fn pro_required_lines(cmd: &str) -> (r: Vec<String>)
    ensures
        lines_text(r@) == pro_required_text(cmd@),
{
    let c = chars_of(cmd);
    let free_alt = if chars_eq_str(&c, "SS_REPORT_HTML") {
        "  Free alternative: SS_REPORT prints the same Rational + Manning + HGL table to the command line."
    } else if chars_eq_str(&c, "SS_SIZE") {
        "  Free alternative: SS_ANALYZE flags surcharged pipes; adjust diameters with SS_EDIT."
    } else if chars_eq_str(&c, "SS_MULTIRP") {
        "  Free alternative: change the return period with SS_PARAMS and rerun SS_ANALYZE."
    } else {
        "  Free alternative: SS_ANALYZE / SS_REPORT / SS_PROFILE."
    };
    let mut l0: Vec<char> = Vec::new();
    append_str(&mut l0, "--- Storm Sewer: ");
    append_str(&mut l0, cmd);
    append_str(&mut l0, " is a Pro feature ($29/year) ---");
    let mut l1: Vec<char> = Vec::new();
    append_str(&mut l1, "  Buy a key at ");
    append_str(&mut l1, PURCHASE_URL);
    append_str(&mut l1, "  then run  SS_ACTIVATE <email> <hc_live_ss_...>");
    let mut l3: Vec<char> = Vec::new();
    append_str(&mut l3, "  Or free: the standalone StormSewer desktop app does this at no cost \u{2014} ");
    append_str(&mut l3, FREE_DESKTOP_URL);
    let mut r: Vec<String> = Vec::new();
    r.push(string_of(&l0));
    r.push(string_of(&l1));
    r.push(free_alt.to_string());
    r.push(string_of(&l3));
    assert(lines_text(r@) =~= pro_required_text(cmd@));
    r
}

/// The `SS_LICENSE` report.
pub open spec fn license_text(
    dev_bypass: bool,
    stored: Option<crate::license::LicenseFields>,
    now_secs: int,
    file_path: Seq<char>,
) -> Seq<Seq<char>> {
    seq![
        "=== Storm Sewer License ==="@,
        "  Product: "@ + PRODUCT_LABEL@ + " ("@ + PRODUCT_ID@ + ")"@,
        "  Status: "@ + status_text(dev_bypass, stored, now_secs),
        "  Validation mode: "@ + validation_mode_text(dev_bypass, stored),
        "  Last validated: "@ + last_validated_text(dev_bypass, stored),
        "  Network: "@ + online_offline_text(dev_bypass, stored),
        "  License file: "@ + file_path,
        "  Activate: SS_ACTIVATE <email> <token>  |  "@ + PURCHASE_URL@,
        "  Pro unlocks "@ + pro_commands_joined()
            + ". Drawing, SS_ANALYZE, SS_REPORT, SS_PROFILE and SS_VALIDATE stay free."@,
        "  HydroComplete (opencad) and Civil 3D keys are separate SKUs and will not activate this plugin."@,
    ]
}

/// The `SS_LICENSE` report, from whether the developer bypass is on, the
/// stored license (if the file could be read), the time and the file's path.
pub fn license_lines(
    dev_bypass: bool,
    stored: &Option<LicenseRecord>,
    now_secs: u64,
    file_path: &str,
) -> (r: Vec<String>)
    requires
        !dev_bypass ==> (stored matches Some(rec) ==> status_readable(rec@) && last_validated_readable(
            rec@,
        )),
    ensures
        lines_text(r@) == license_text(dev_bypass, fields_of(*stored), now_secs as int, file_path@),
{
    let mut r: Vec<String> = Vec::new();
    r.push("=== Storm Sewer License ===".to_string());
    let mut l: Vec<char> = Vec::new();
    append_str(&mut l, "  Product: ");
    append_str(&mut l, PRODUCT_LABEL);
    append_str(&mut l, " (");
    append_str(&mut l, PRODUCT_ID);
    append_str(&mut l, ")");
    r.push(string_of(&l));
    let status = status_label(dev_bypass, stored, now_secs);
    r.push(crate::text::concat("  Status: ", status.as_str()));
    let mode = validation_mode_label(dev_bypass, stored);
    r.push(crate::text::concat("  Validation mode: ", mode.as_str()));
    let last = last_validated_label(dev_bypass, stored);
    r.push(crate::text::concat("  Last validated: ", last.as_str()));
    let net = online_offline_label(dev_bypass, stored);
    r.push(crate::text::concat("  Network: ", net.as_str()));
    r.push(crate::text::concat("  License file: ", file_path));
    r.push(crate::text::concat("  Activate: SS_ACTIVATE <email> <token>  |  ", PURCHASE_URL));
    let mut p: Vec<char> = Vec::new();
    append_str(&mut p, "  Pro unlocks ");
    append_str(&mut p, "SS_REPORT_HTML, SS_SIZE, SS_MULTIRP");
    append_str(&mut p, ". Drawing, SS_ANALYZE, SS_REPORT, SS_PROFILE and SS_VALIDATE stay free.");
    r.push(string_of(&p));
    r.push(
        "  HydroComplete (opencad) and Civil 3D keys are separate SKUs and will not activate this plugin.".to_string(),
    );
    assert(lines_text(r@) =~= license_text(dev_bypass, fields_of(*stored), now_secs as int, file_path@));
    r
}

/// What `SS_ACTIVATE <args>` does next.
pub enum ActivateCommand {
    /// Print these lines; nothing to activate.
    Lines(Vec<String>),
    /// Activate with this email and token.
    Activate { email: String, token: String },
}

pub open spec fn activate_usage_text() -> Seq<Seq<char>> {
    seq![
        "=== Storm Sewer Pro Activation ("@ + PRODUCT_LABEL@ + ") ==="@,
        "  Usage: SS_ACTIVATE <email> <hc_live_token>"@,
        "  Or paste both on one line: email@domain.com hc_live_ss_..."@,
        "  Buy a Storm Sewer Pro key ($29/year) at "@ + PURCHASE_URL@,
    ]
}

pub open spec fn activate_missing_text() -> Seq<Seq<char>> {
    seq![
        "Activation failed: provide email and token."@,
        "  Usage: SS_ACTIVATE user@example.com hc_live_ss_..."@,
    ]
}

/// `SS_ACTIVATE <args>`: usage on empty arguments; otherwise the email and
/// token, read as `email token` on one line when that parses, else as the
/// first two words; a failure message when fewer than two words are given.
pub fn activate_lines(args: &str) -> (r: ActivateCommand)
    ensures
        ({
            let t = trim(args@);
            if t.len() == 0 {
                r matches ActivateCommand::Lines(l) && lines_text(l@) == activate_usage_text()
            } else {
                match combined_input(t) {
                    Some((e, k)) => r matches ActivateCommand::Activate { email, token } && email@
                        == e && token@ == k,
                    None => if words(t).len() < 2 {
                        r matches ActivateCommand::Lines(l) && lines_text(l@)
                            == activate_missing_text()
                    } else {
                        r matches ActivateCommand::Activate { email, token } && email@ == words(
                            t,
                        )[0] && token@ == words(t)[1]
                    },
                }
            }
        }),
{
    let t = trim_str(args);
    if t.len() == 0 {
        let mut l0: Vec<char> = Vec::new();
        append_str(&mut l0, "=== Storm Sewer Pro Activation (");
        append_str(&mut l0, PRODUCT_LABEL);
        append_str(&mut l0, ") ===");
        let mut r: Vec<String> = Vec::new();
        r.push(string_of(&l0));
        r.push("  Usage: SS_ACTIVATE <email> <hc_live_token>".to_string());
        r.push("  Or paste both on one line: email@domain.com hc_live_ss_...".to_string());
        r.push(crate::text::concat("  Buy a Storm Sewer Pro key ($29/year) at ", PURCHASE_URL));
        assert(lines_text(r@) =~= activate_usage_text());
        return ActivateCommand::Lines(r);
    }
    let ts = string_of(&t);
    if let Some((e, k)) = try_parse_combined_input(ts.as_str()) {
        return ActivateCommand::Activate { email: e, token: k };
    }
    let parts = split_words(&t);
    if parts.len() < 2 {
        let mut r: Vec<String> = Vec::new();
        r.push("Activation failed: provide email and token.".to_string());
        r.push("  Usage: SS_ACTIVATE user@example.com hc_live_ss_...".to_string());
        assert(lines_text(r@) =~= activate_missing_text());
        return ActivateCommand::Lines(r);
    }
    assert(parts@[0]@ == words(t@)[0]);
    assert(parts@[1]@ == words(t@)[1]);
    ActivateCommand::Activate { email: string_of(&parts[0]), token: string_of(&parts[1]) }
}

/// `Debug` name of a validation mode.
pub open spec fn mode_name(m: LicenseValidationMode) -> Seq<char> {
    match m {
        LicenseValidationMode::NoLicense => "None"@,
        LicenseValidationMode::Online => "Online"@,
        LicenseValidationMode::OfflineStub => "OfflineStub"@,
        LicenseValidationMode::DevBypass => "DevBypass"@,
    }
}

pub fn mode_debug_name(m: LicenseValidationMode) -> (r: &'static str)
    ensures
        r@ == mode_name(m),
{
    match m {
        LicenseValidationMode::NoLicense => "None",
        LicenseValidationMode::Online => "Online",
        LicenseValidationMode::OfflineStub => "OfflineStub",
        LicenseValidationMode::DevBypass => "DevBypass",
    }
}

/// The lines reporting an activation `result`, with the license status line
/// `status` read after it.
pub open spec fn activation_report_text(
    success: bool,
    message: Seq<char>,
    mode: LicenseValidationMode,
    expires: Seq<char>,
    status: Seq<char>,
) -> Seq<Seq<char>> {
    let head = seq!["=== Storm Sewer Pro Activation ==="@];
    if success {
        let expiry = match crate::text::byte_prefix(expires, 10) {
            Some(d) => seq!["  Expires: "@ + d],
            None => Seq::<Seq<char>>::empty(),
        };
        head + seq!["  "@ + message, "  Mode: "@ + mode_name(mode)] + expiry + seq![
            "  Status: "@ + status,
            "  Unlocked: "@ + pro_commands_joined(),
        ]
    } else {
        head + seq!["  Activation failed: "@ + message, "  Status: "@ + status]
    }
}

pub fn activation_report_lines(result: &LicenseActivationResult, status: &str) -> (r: Vec<String>)
    ensures
        lines_text(r@) == activation_report_text(
            result@.success,
            result@.message,
            result@.mode,
            result@.expires,
            status@,
        ),
{
    let mut r: Vec<String> = Vec::new();
    r.push("=== Storm Sewer Pro Activation ===".to_string());
    if result.success {
        r.push(crate::text::concat("  ", result.message.as_str()));
        r.push(crate::text::concat("  Mode: ", mode_debug_name(result.mode)));
        let ev = chars_of(result.expires.as_str());
        if let Some(d) = take_bytes(&ev, 10) {
            let ds = string_of(&d);
            r.push(crate::text::concat("  Expires: ", ds.as_str()));
        }
        r.push(crate::text::concat("  Status: ", status));
        r.push(crate::text::concat("  Unlocked: ", "SS_REPORT_HTML, SS_SIZE, SS_MULTIRP"));
    } else {
        r.push(crate::text::concat("  Activation failed: ", result.message.as_str()));
        r.push(crate::text::concat("  Status: ", status));
    }
    assert(lines_text(r@) =~= activation_report_text(
        result@.success,
        result@.message,
        result@.mode,
        result@.expires,
        status@,
    ));
    r
}

} // verus!
