//! Pro license activation for the Storm Sewer plugin SKU (`product = "stormsewer"`).
//!
//! Keys have the `hc_live_*` format and are validated online against the
//! HydroComplete licensing endpoint under a product id of their own, so keys
//! of the HydroComplete Open CAD Studio plugin (`opencad`) or Civil 3D
//! (`civil3d`) do not unlock this plugin.
//!
//! Reading and writing the license file, the environment and the network stay
//! with the caller: the functions here take what was read (the stored record,
//! the server's reply, the current time) and say what to show or to store.

use vstd::prelude::*;

use crate::dates::{
    cut_ok, date_of_day, date_prefix_days, format_iso8601, iso_timestamp, law_timestamp_day_roundtrip,
    parse_rfc3339,
};
use crate::text::{
    append_str, byte_len, byte_prefix, chars_eq_str, chars_of, dec, decimal, has_prefix, is_ws,
    starts_with, string_of, take_bytes, trim, trim_chars, trim_end, trim_start, trim_str, utf8_len,
};

verus! {

pub const DEFAULT_VALIDATE_URL: &'static str = "https://hydrocomplete.com/api/licensing/validate";

pub const TOKEN_PREFIX: &'static str = "hc_live_";

/// Server-side SKU identifier for this client (separate from HydroComplete
/// `opencad` and Civil 3D `civil3d` keys).
pub const PRODUCT_ID: &'static str = "stormsewer";

pub const PRODUCT_LABEL: &'static str = "Storm Sewer for Open CAD Studio";

pub const PURCHASE_URL: &'static str = "https://hydrocomplete.com/stormsewer";

/// Where the standalone StormSewer desktop app, which does the Pro work for
/// free, is published.
pub const FREE_DESKTOP_URL: &'static str = "https://hydrocomplete.com/stormsewer/desktop";

pub const LICENSE_FILE_NAME: &'static str = "stormsewer-license.json";

pub const STUB_VALIDITY_DAYS: u64 = 365;

/// How the current license was established.
#[derive(Debug, Clone, Copy, PartialEq, Eq, Structural)]
pub enum LicenseValidationMode {
    NoLicense,
    Online,
    OfflineStub,
    DevBypass,
}

/// The license file's contents.
#[derive(Debug)]
pub struct LicenseRecord {
    pub email: String,
    pub token: String,
    pub expires: String,
    pub product: String,
    pub last_validated: String,
    pub validation_mode: String,
}

/// The text of each field of a [`LicenseRecord`].
pub struct LicenseFields {
    pub email: Seq<char>,
    pub token: Seq<char>,
    pub expires: Seq<char>,
    pub product: Seq<char>,
    pub last_validated: Seq<char>,
    pub validation_mode: Seq<char>,
}

impl View for LicenseRecord {
    type V = LicenseFields;

    open spec fn view(&self) -> LicenseFields {
        LicenseFields {
            email: self.email@,
            token: self.token@,
            expires: self.expires@,
            product: self.product@,
            last_validated: self.last_validated@,
            validation_mode: self.validation_mode@,
        }
    }
}

impl LicenseRecord {
    /// A field-by-field copy.
    pub fn duplicate(&self) -> (r: LicenseRecord)
        ensures
            r@ == self@,
    {
        LicenseRecord {
            email: self.email.clone(),
            token: self.token.clone(),
            expires: self.expires.clone(),
            product: self.product.clone(),
            last_validated: self.last_validated.clone(),
            validation_mode: self.validation_mode.clone(),
        }
    }
}

/// What an activation attempt came to.
#[derive(Debug)]
pub struct LicenseActivationResult {
    pub success: bool,
    pub message: String,
    pub mode: LicenseValidationMode,
    pub expires: String,
}

/// The plain content of a [`LicenseActivationResult`].
pub struct ActivationView {
    pub success: bool,
    pub message: Seq<char>,
    pub mode: LicenseValidationMode,
    pub expires: Seq<char>,
}

impl View for LicenseActivationResult {
    type V = ActivationView;

    open spec fn view(&self) -> ActivationView {
        ActivationView {
            success: self.success,
            message: self.message@,
            mode: self.mode,
            expires: self.expires@,
        }
    }
}

// ------------------------------------------------------------------ tokens

/// A token is well formed when, trimmed, it starts with `hc_live_` and is at
/// least eight bytes longer than that prefix.
pub open spec fn token_well_formed(s: Seq<char>) -> bool {
    has_prefix(trim(s), TOKEN_PREFIX@) && utf8_len(trim(s)) >= 16
}

pub fn is_well_formed_token(token: &str) -> (r: bool)
    ensures
        r == token_well_formed(token@),
{
    let t = trim_str(token);
    starts_with(&t, TOKEN_PREFIX) && byte_len(&t) >= 16
}

/// An email is accepted when it is non-empty and holds an `@`.
pub open spec fn email_ok(e: Seq<char>) -> bool {
    e.len() > 0 && e.contains('@')
}

/// The `(email, token)` pair pasted as `email token` on one line: the input is
/// trimmed and cut at its first space; each side is trimmed again.
pub open spec fn combined_input(s: Seq<char>) -> Option<(Seq<char>, Seq<char>)> {
    let t = trim(s);
    if t.contains(' ') {
        let i = crate::text::first_index(t, ' ')->0;
        let email = trim(t.take(i));
        let token = trim(t.skip(i + 1));
        if email.contains('@') && token_well_formed(token) {
            Some((email, token))
        } else {
            None
        }
    } else {
        None
    }
}

pub fn try_parse_combined_input(input: &str) -> (r: Option<(String, String)>)
    ensures
        match r {
            Some((e, t)) => combined_input(input@) == Some((e@, t@)),
            None => combined_input(input@) is None,
        },
{
    let t = trim_str(input);
    let space = match crate::text::find_char(&t, ' ') {
        Some(i) => i,
        None => {
            return None;
        },
    };
    let left = crate::text::slice_chars(&t, 0, space);
    let right = crate::text::slice_chars(&t, space + 1, t.len());
    assert(left@ == t@.take(space as int));
    assert(right@ == t@.skip(space + 1));
    let email = trim_chars(&left);
    let token = trim_chars(&right);
    let token_s = string_of(&token);
    if crate::text::contains_char(&email, '@') && is_well_formed_token(token_s.as_str()) {
        Some((string_of(&email), token_s))
    } else {
        None
    }
}

// ------------------------------------------------------------------ records

/// A record stamped with this plugin's product id.
pub fn new_license_record(
    email: &str,
    token: &str,
    expires: &str,
    last_validated: &str,
    validation_mode: &str,
) -> (r: LicenseRecord)
    ensures
        r@.email == email@,
        r@.token == token@,
        r@.expires == expires@,
        r@.product == PRODUCT_ID@,
        r@.last_validated == last_validated@,
        r@.validation_mode == validation_mode@,
{
    LicenseRecord {
        email: email.to_string(),
        token: token.to_string(),
        expires: expires.to_string(),
        product: PRODUCT_ID.to_string(),
        last_validated: last_validated.to_string(),
        validation_mode: validation_mode.to_string(),
    }
}

/// The record that a development build writes when the server cannot be
/// reached: valid for [`STUB_VALIDITY_DAYS`] from `now_secs`.
pub fn build_offline_stub_record(email: &str, token: &str, now_secs: u64) -> (r: LicenseRecord)
    requires
        now_secs <= u64::MAX - 365 * 86400,
    ensures
        r@.email == email@,
        r@.token == token@,
        r@.expires == iso_timestamp((now_secs + 365 * 86400) as nat),
        r@.product == PRODUCT_ID@,
        r@.last_validated == iso_timestamp(now_secs as nat),
        r@.validation_mode == "offline-stub"@,
{
    let expires_secs = now_secs + STUB_VALIDITY_DAYS * 86400;
    let expires = format_iso8601(expires_secs);
    let now = format_iso8601(now_secs);
    new_license_record(email, token, expires.as_str(), now.as_str(), "offline-stub")
}

/// The record names a person, a token and an expiry, and is for this product.
pub open spec fn license_fields_valid(r: LicenseFields) -> bool {
    trim(r.email).len() > 0 && trim(r.token).len() > 0 && trim(r.expires).len() > 0 && r.product
        == PRODUCT_ID@
}

pub fn is_license_fields_valid(record: &LicenseRecord) -> (r: bool)
    ensures
        r == license_fields_valid(record@),
{
    let e = trim_str(record.email.as_str());
    let t = trim_str(record.token.as_str());
    let x = trim_str(record.expires.as_str());
    let p = chars_of(record.product.as_str());
    e.len() > 0 && t.len() > 0 && x.len() > 0 && chars_eq_str(&p, PRODUCT_ID)
}

/// Reading the expiry of a record with valid fields does not fail: its date
/// can be cut out, and a date it names lies on or after the epoch.
pub open spec fn expiry_readable(r: LicenseFields) -> bool {
    license_fields_valid(r) ==> (cut_ok(trim(r.expires), 10) && (date_prefix_days(r.expires) matches Some(
        z,
    ) ==> z >= 0))
}

/// The record is in force at `now_secs`: its fields are valid and the day its
/// expiry date names starts after `now_secs`.
pub open spec fn license_current(r: LicenseFields, now_secs: int) -> bool {
    license_fields_valid(r) && (date_prefix_days(r.expires) matches Some(z) && z * 86400 > now_secs)
}

/// The stored record if it is in force at `now_secs`.
pub fn license_if_current(stored: &Option<LicenseRecord>, now_secs: u64) -> (r: Option<LicenseRecord>)
    requires
        stored matches Some(rec) ==> expiry_readable(rec@),
    ensures
        match r {
            Some(rec) => stored matches Some(s) && rec@ == s@ && license_current(s@, now_secs as int),
            None => !(stored matches Some(s) && license_current(s@, now_secs as int)),
        },
{
    match stored {
        None => None,
        Some(rec) => {
            if !is_license_fields_valid(rec) {
                return None;
            }
            match parse_rfc3339(rec.expires.as_str()) {
                None => None,
                Some(z) => {
                    if (z as u128) * 86400 <= now_secs as u128 {
                        None
                    } else {
                        Some(rec.duplicate())
                    }
                },
            }
        },
    }
}

// ------------------------------------------------------------------ messages

pub open spec fn wrong_product_message_text() -> Seq<char> {
    "This license file is not for "@ + PRODUCT_LABEL@ + " (product="@ + PRODUCT_ID@ + ")."@
}

pub fn wrong_product_message() -> (r: String)
    ensures
        r@ == wrong_product_message_text(),
{
    let mut v: Vec<char> = Vec::new();
    append_str(&mut v, "This license file is not for ");
    append_str(&mut v, PRODUCT_LABEL);
    append_str(&mut v, " (product=");
    append_str(&mut v, PRODUCT_ID);
    append_str(&mut v, ").");
    string_of(&v)
}

pub open spec fn wrong_product_hint_text() -> Seq<char> {
    "Storm Sewer Pro keys are sold at "@ + PURCHASE_URL@
        + ". HydroComplete (opencad) and Civil 3D keys are separate SKUs."@
}

pub fn wrong_product_hint() -> (r: String)
    ensures
        r@ == wrong_product_hint_text(),
{
    let mut v: Vec<char> = Vec::new();
    append_str(&mut v, "Storm Sewer Pro keys are sold at ");
    append_str(&mut v, PURCHASE_URL);
    append_str(&mut v, ". HydroComplete (opencad) and Civil 3D keys are separate SKUs.");
    string_of(&v)
}

/// `User-Agent` sent with validation requests.
pub fn user_agent_string(version: &str) -> (r: String)
    ensures
        r@ == "StormSewer-OpenCAD/"@ + version@,
{
    crate::text::concat("StormSewer-OpenCAD/", version)
}

/// A failed activation with `message`.
pub fn fail(message: String) -> (r: LicenseActivationResult)
    ensures
        !r@.success,
        r@.message == message@,
        r@.mode == LicenseValidationMode::NoLicense,
        r@.expires == Seq::<char>::empty(),
{
    LicenseActivationResult {
        success: false,
        message,
        mode: LicenseValidationMode::NoLicense,
        expires: String::new(),
    }
}

fn fail_with(message: &str) -> (r: LicenseActivationResult)
    ensures
        !r@.success,
        r@.message == message@,
        r@.mode == LicenseValidationMode::NoLicense,
        r@.expires == Seq::<char>::empty(),
{
    fail(message.to_string())
}

// ------------------------------------------------------------------ activation

/// Validates keys against a licensing endpoint.
pub struct LicenseActivator {
    validate_url: String,
}

/// A validation request the caller is to send to the licensing endpoint: the
/// key (`token`) for `product`, asking for `features`.
pub struct ValidationRequest {
    pub url: String,
    pub email: String,
    pub token: String,
    pub product: String,
    pub features: Vec<String>,
}

/// The features a Pro key is asked to unlock.
pub open spec fn requested_features() -> Seq<Seq<char>> {
    seq!["reports"@, "export"@]
}

/// A request to `url` for the key `token` of `email`, naming this product and
/// the Pro features.
pub open spec fn request_for(r: ValidationRequest, url: Seq<char>, email: Seq<char>, token: Seq<char>) -> bool {
    &&& r.url@ == url
    &&& r.email@ == email
    &&& r.token@ == token
    &&& r.product@ == PRODUCT_ID@
    &&& r.features@.map_values(|f: String| f@) == requested_features()
}

fn validation_request(url: &String, email: String, token: String) -> (r: ValidationRequest)
    ensures
        request_for(r, url@, email@, token@),
{
    let mut features: Vec<String> = Vec::new();
    features.push("reports".to_string());
    features.push("export".to_string());
    let r = ValidationRequest {
        url: url.clone(),
        email,
        token,
        product: PRODUCT_ID.to_string(),
        features,
    };
    assert(r.features@.map_values(|f: String| f@) =~= requested_features());
    r
}

/// The next step of an activation.
pub enum ActivationStep {
    /// Activation ended without a network request.
    Done(LicenseActivationResult),
    /// Send this request, then hand the outcome to [`complete_activation`].
    ValidateOnline(ValidationRequest),
}

pub open spec fn msg_enter_email() -> Seq<char> {
    "Enter a valid email address."@
}

pub open spec fn msg_bad_token_format() -> Seq<char> {
    "Activation token must start with hc_live_ and be at least 16 characters."@
}

pub open spec fn msg_no_license_file() -> Seq<char> {
    "No license file to validate. Run SS_ACTIVATE first."@
}

impl LicenseActivator {
    pub closed spec fn url(&self) -> Seq<char> {
        self.validate_url@
    }

    pub fn new() -> (r: Self)
        ensures
            r.url() == DEFAULT_VALIDATE_URL@,
    {
        LicenseActivator { validate_url: DEFAULT_VALIDATE_URL.to_string() }
    }

    pub fn with_validate_url(self, url: &str) -> (r: Self)
        ensures
            r.url() == url@,
    {
        LicenseActivator { validate_url: url.to_string() }
    }

    /// Activate with a key typed by the user: the email (trimmed) must hold an
    /// `@` and the token (trimmed) be well formed, else the activation fails
    /// at once; otherwise the key goes to the server.
    pub fn activate(&self, email: &str, token: &str) -> (r: ActivationStep)
        ensures
            match r {
                ActivationStep::Done(res) => {
                    &&& !res@.success
                    &&& res@.mode == LicenseValidationMode::NoLicense
                    &&& res@.expires == Seq::<char>::empty()
                    &&& if !email_ok(trim(email@)) {
                        res@.message == msg_enter_email()
                    } else {
                        !token_well_formed(token@) && res@.message == msg_bad_token_format()
                    }
                },
                ActivationStep::ValidateOnline(req) => {
                    &&& email_ok(trim(email@))
                    &&& token_well_formed(token@)
                    &&& request_for(req, self.url(), trim(email@), trim(token@))
                },
            },
    {
        let e = trim_str(email);
        let t = trim_str(token);
        if e.len() == 0 || !crate::text::contains_char(&e, '@') {
            return ActivationStep::Done(fail_with("Enter a valid email address."));
        }
        if !is_well_formed_token(token) {
            return ActivationStep::Done(
                fail_with("Activation token must start with hc_live_ and be at least 16 characters."),
            );
        }
        ActivationStep::ValidateOnline(
            validation_request(&self.validate_url, string_of(&e), string_of(&t)),
        )
    }

    /// Re-validate the stored license: it must name an email and a token and
    /// be for this product.
    pub fn refresh(&self, existing: &Option<LicenseRecord>) -> (r: ActivationStep)
        ensures
            match existing {
                None => r matches ActivationStep::Done(res) && !res@.success && res@.message
                    == msg_no_license_file() && res@.mode == LicenseValidationMode::NoLicense,
                Some(rec) => if rec@.email.len() == 0 || rec@.token.len() == 0 {
                    r matches ActivationStep::Done(res) && !res@.success && res@.message
                        == msg_no_license_file() && res@.mode == LicenseValidationMode::NoLicense
                } else if rec@.product != PRODUCT_ID@ {
                    r matches ActivationStep::Done(res) && !res@.success && res@.message
                        == wrong_product_message_text() && res@.mode
                        == LicenseValidationMode::NoLicense
                } else {
                    r matches ActivationStep::ValidateOnline(req) && request_for(
                        req,
                        self.url(),
                        rec@.email,
                        rec@.token,
                    )
                },
            },
    {
        match existing {
            None => ActivationStep::Done(
                fail_with("No license file to validate. Run SS_ACTIVATE first."),
            ),
            Some(rec) => {
                let e = chars_of(rec.email.as_str());
                let t = chars_of(rec.token.as_str());
                if e.len() == 0 || t.len() == 0 {
                    return ActivationStep::Done(
                        fail_with("No license file to validate. Run SS_ACTIVATE first."),
                    );
                }
                let p = chars_of(rec.product.as_str());
                if !chars_eq_str(&p, PRODUCT_ID) {
                    return ActivationStep::Done(fail(wrong_product_message()));
                }
                ActivationStep::ValidateOnline(
                    validation_request(&self.validate_url, rec.email.clone(), rec.token.clone()),
                )
            },
        }
    }
}

// ------------------------------------------------------------------ server reply

/// The text of an optional string.
pub open spec fn opt_text(o: Option<String>) -> Option<Seq<char>> {
    match o {
        Some(s) => Some(s@),
        None => None,
    }
}

/// What the logic reads of the licensing server's JSON reply: `valid`,
/// `error`, `license.expires` and `accessToken`, each when present with the
/// expected JSON type.
pub struct ValidationReply {
    pub valid: Option<bool>,
    pub error: Option<String>,
    pub license_expires: Option<String>,
    pub access_token: Option<String>,
}

/// What `serde_json` reads from the reply text `body`: `None` when `body` is
/// not JSON; otherwise the boolean at `valid`, and the strings at `error`,
/// `license.expires` and `accessToken`, each `None` where absent or of
/// another JSON type.
pub uninterp spec fn json_reply_fields(body: Seq<char>) -> Option<
    (Option<bool>, Option<Seq<char>>, Option<Seq<char>>, Option<Seq<char>>),
>;

/// Parses the server's reply with `serde_json::from_str::<serde_json::Value>`
/// and looks up its fields with `Value::get`, `Value::as_bool` and
/// `Value::as_str`. Trusted: the result is what `serde_json` makes of `body`,
/// named [`json_reply_fields`]; which texts are JSON is not stated.
#[verifier::external_body]
fn read_validation_reply(body: &str) -> (r: Option<ValidationReply>)
    ensures
        json_reply_fields(body@) == reply_view(r),
{
    let v: serde_json::Value = serde_json::from_str(body).ok()?;
    let text = |x: Option<&serde_json::Value>| x.and_then(|t| t.as_str()).map(|t| t.to_string());
    Some(ValidationReply {
        valid: v.get("valid").and_then(|x| x.as_bool()),
        error: text(v.get("error")),
        license_expires: text(v.get("license").and_then(|l| l.get("expires"))),
        access_token: text(v.get("accessToken")),
    })
}

/// The outcome of one online validation attempt.
pub struct OnlineValidationAttempt {
    success: bool,
    was_network_attempt: bool,
    server_said_invalid: bool,
    error_message: Option<String>,
    record: Option<LicenseRecord>,
}

/// The plain content of an [`OnlineValidationAttempt`].
pub struct AttemptView {
    pub success: bool,
    pub was_network_attempt: bool,
    pub server_said_invalid: bool,
    pub error_message: Option<Seq<char>>,
    pub record: Option<LicenseFields>,
}

impl View for OnlineValidationAttempt {
    type V = AttemptView;

    closed spec fn view(&self) -> AttemptView {
        AttemptView {
            success: self.success,
            was_network_attempt: self.was_network_attempt,
            server_said_invalid: self.server_said_invalid,
            error_message: opt_text(self.error_message),
            record: match self.record {
                Some(r) => Some(r@),
                None => None,
            },
        }
    }
}

impl OnlineValidationAttempt {
    /// Only records for this product are carried.
    #[verifier::type_invariant]
    spec fn carries_own_product(&self) -> bool {
        self.record matches Some(r) ==> r@.product == PRODUCT_ID@
    }
}

pub open spec fn msg_server_returned(status: u16) -> Seq<char> {
    "Server returned "@ + dec(status as nat) + "."@
}

pub open spec fn msg_invalid_response() -> Seq<char> {
    "Invalid server response."@
}

/// One year after `now_secs`, the expiry assumed when the server names none.
pub open spec fn default_expiry(now_secs: nat) -> Seq<char> {
    iso_timestamp(now_secs + 365 * 86400)
}

/// The fields of a parsed reply, as plain text.
pub open spec fn reply_view(r: Option<ValidationReply>) -> Option<
    (Option<bool>, Option<Seq<char>>, Option<Seq<char>>, Option<Seq<char>>),
> {
    match r {
        Some(rep) => Some(
            (rep.valid, opt_text(rep.error), opt_text(rep.license_expires), opt_text(rep.access_token)),
        ),
        None => None,
    }
}

/// The attempt that a reply read as `fields` (`None`: not JSON) makes, for a
/// request with `email` and `token` sent at `now_secs`: confirmed when
/// `valid` is `true`, rejected otherwise.
pub open spec fn fields_attempt(
    email: Seq<char>,
    token: Seq<char>,
    fields: Option<(Option<bool>, Option<Seq<char>>, Option<Seq<char>>, Option<Seq<char>>)>,
    now_secs: nat,
    a: AttemptView,
) -> bool {
    &&& a.was_network_attempt
    &&& match fields {
        None => !a.success && !a.server_said_invalid && a.error_message == Some(msg_invalid_response())
            && a.record is None,
        Some((valid, error, expires, access)) => if valid != Some(true) {
            !a.success && a.server_said_invalid && a.error_message == error && a.record is None
        } else {
            &&& a.success
            &&& !a.server_said_invalid
            &&& a.error_message is None
            &&& a.record matches Some(r)
            &&& r.email == email
            &&& r.token == (match access {
                Some(t) => t,
                None => token,
            })
            &&& r.expires == (match expires {
                Some(x) => x,
                None => default_expiry(now_secs),
            })
            &&& r.product == PRODUCT_ID@
            &&& r.last_validated == iso_timestamp(now_secs)
            &&& r.validation_mode == "online"@
        },
    }
}

/// The attempt that a reply with HTTP `status` and text `body` makes, for a
/// request with `email` and `token` sent at `now_secs`.
pub open spec fn reply_attempt(
    email: Seq<char>,
    token: Seq<char>,
    status: u16,
    body: Seq<char>,
    now_secs: nat,
    a: AttemptView,
) -> bool {
    if status >= 400 {
        &&& a.was_network_attempt
        &&& !a.success
        &&& !a.server_said_invalid
        &&& a.error_message == Some(msg_server_returned(status))
        &&& a.record is None
    } else {
        fields_attempt(email, token, json_reply_fields(body), now_secs, a)
    }
}

fn opt_string_copy(o: &Option<String>) -> (r: Option<String>)
    ensures
        opt_text(r) == opt_text(*o),
{
    match o {
        Some(s) => Some(s.clone()),
        None => None,
    }
}

/// What a parsed reply of the licensing server means (`None`: the reply
/// was not JSON), for a request with `email` and `token` sent at `now_secs`.
pub fn attempt_from_reply(email: &str, token: &str, reply: &Option<ValidationReply>, now_secs: u64) -> (r:
    OnlineValidationAttempt)
    requires
        now_secs <= u64::MAX - 365 * 86400,
    ensures
        fields_attempt(email@, token@, reply_view(*reply), now_secs as nat, r@),
{
    let reply = match reply {
        Some(rep) => rep,
        None => {
            return OnlineValidationAttempt {
                success: false,
                was_network_attempt: true,
                server_said_invalid: false,
                error_message: Some("Invalid server response.".to_string()),
                record: None,
            };
        },
    };
    let is_valid = match reply.valid {
        Some(b) => b,
        None => false,
    };
    if !is_valid {
        return OnlineValidationAttempt {
            success: false,
            was_network_attempt: true,
            server_said_invalid: true,
            error_message: opt_string_copy(&reply.error),
            record: None,
        };
    }
    let expires = match &reply.license_expires {
        Some(x) => x.clone(),
        None => format_iso8601(now_secs + STUB_VALIDITY_DAYS * 86400),
    };
    let stored_token = match &reply.access_token {
        Some(t) => t.clone(),
        None => token.to_string(),
    };
    let now = format_iso8601(now_secs);
    let record = new_license_record(email, stored_token.as_str(), expires.as_str(), now.as_str(), "online");
    OnlineValidationAttempt {
        success: true,
        was_network_attempt: true,
        server_said_invalid: false,
        error_message: None,
        record: Some(record),
    }
}

/// What a reply of the licensing server means: HTTP `status`, the reply text
/// `body`, for a request with `email` and `token` sent at `now_secs`.
pub fn interpret_validation_reply(
    email: &str,
    token: &str,
    status: u16,
    body: &str,
    now_secs: u64,
) -> (r: OnlineValidationAttempt)
    requires
        now_secs <= u64::MAX - 365 * 86400,
    ensures
        reply_attempt(email@, token@, status, body@, now_secs as nat, r@),
{
    if status >= 400 {
        let mut v: Vec<char> = Vec::new();
        append_str(&mut v, "Server returned ");
        let d = decimal(status as u64);
        crate::text::append(&mut v, &d);
        append_str(&mut v, ".");
        return OnlineValidationAttempt {
            success: false,
            was_network_attempt: true,
            server_said_invalid: false,
            error_message: Some(string_of(&v)),
            record: None,
        };
    }
    let reply = read_validation_reply(body);
    attempt_from_reply(email, token, &reply, now_secs)
}

/// The attempt when the request never got an HTTP reply; `message` is the
/// transport's error text.
pub fn transport_failure(message: String) -> (r: OnlineValidationAttempt)
    ensures
        r@.was_network_attempt,
        !r@.success,
        !r@.server_said_invalid,
        r@.error_message == Some(message@),
        r@.record is None,
{
    OnlineValidationAttempt {
        success: false,
        was_network_attempt: true,
        server_said_invalid: false,
        error_message: Some(message),
        record: None,
    }
}

/// How an activation ends: the result to report, the record to store in
/// the license file, if any, and whether to delete the cached license.
pub struct ActivationOutcome {
    pub result: LicenseActivationResult,
    pub write: Option<LicenseRecord>,
    /// The server rejected the key: the cached license is to be deleted.
    pub delete: bool,
}

pub open spec fn or_default(o: Option<Seq<char>>, d: Seq<char>) -> Seq<char> {
    match o {
        Some(x) => x,
        None => d,
    }
}

pub open spec fn msg_online_activated() -> Seq<char> {
    "Pro activated for "@ + PRODUCT_LABEL@ + " (online validation)."@
}

pub open spec fn msg_rejected(a: AttemptView) -> Seq<char> {
    or_default(a.error_message, "License is not valid on the server."@) + " "@
        + wrong_product_hint_text()
}

pub open spec fn msg_unreachable(a: AttemptView) -> Seq<char> {
    or_default(a.error_message, "Could not reach the license server."@)
        + " Purchase a Storm Sewer Pro key at "@ + PURCHASE_URL@ + " and try again."@
}

pub open spec fn msg_stub_activated(network_attempt: bool) -> Seq<char> {
    if network_attempt {
        "Pro activated (offline stub \u{2014} server unreachable; dev build only). Purchase: "@
            + PURCHASE_URL@
    } else {
        "Pro activated (offline stub \u{2014} dev build only)."@
    }
}

/// Finish an activation of `email` and `token` from the online attempt.
/// `offline_stub_allowed` is set in development builds, which activate with a
/// local stub when the server could not confirm the key; `now_secs` dates it.
pub fn complete_activation(
    email: &str,
    token: &str,
    online: OnlineValidationAttempt,
    offline_stub_allowed: bool,
    now_secs: u64,
) -> (r: ActivationOutcome)
    requires
        now_secs <= u64::MAX - 365 * 86400,
    ensures
        ({
            let a = online@;
            let res = r.result@;
            if a.success && a.record is Some {
                &&& res.success
                &&& res.mode == LicenseValidationMode::Online
                &&& res.message == msg_online_activated()
                &&& res.expires == a.record->0.expires
                &&& r.write matches Some(w) && w@ == a.record->0
            } else if a.server_said_invalid {
                &&& !res.success
                &&& res.mode == LicenseValidationMode::NoLicense
                &&& res.message == msg_rejected(a)
                &&& res.expires == Seq::<char>::empty()
                &&& r.write is None
            } else if !token_well_formed(token@) {
                &&& !res.success
                &&& res.mode == LicenseValidationMode::NoLicense
                &&& res.message == or_default(
                    a.error_message,
                    "Online validation failed and token format is invalid."@,
                )
                &&& res.expires == Seq::<char>::empty()
                &&& r.write is None
            } else if !offline_stub_allowed {
                &&& !res.success
                &&& res.mode == LicenseValidationMode::NoLicense
                &&& res.message == msg_unreachable(a)
                &&& res.expires == Seq::<char>::empty()
                &&& r.write is None
            } else {
                &&& res.success
                &&& res.mode == LicenseValidationMode::OfflineStub
                &&& res.message == msg_stub_activated(a.was_network_attempt)
                &&& res.expires == iso_timestamp((now_secs + 365 * 86400) as nat)
                &&& r.write matches Some(w) && w@.email == email@ && w@.token == token@
                    && w@.expires == iso_timestamp((now_secs + 365 * 86400) as nat) && w@.product
                    == PRODUCT_ID@ && w@.last_validated == iso_timestamp(now_secs as nat)
                    && w@.validation_mode == "offline-stub"@
            }
        }),
        r.write matches Some(w) ==> w@.product == PRODUCT_ID@,
        r.delete == (!(online@.success && online@.record is Some) && online@.server_said_invalid),
{
    proof {
        use_type_invariant(&online);
    }
    let OnlineValidationAttempt {
        success,
        was_network_attempt,
        server_said_invalid,
        error_message,
        record,
    } = online;
    if success {
        if let Some(record) = record {
            let expires = record.expires.clone();
            let mut v: Vec<char> = Vec::new();
            append_str(&mut v, "Pro activated for ");
            append_str(&mut v, PRODUCT_LABEL);
            append_str(&mut v, " (online validation).");
            return ActivationOutcome {
                result: LicenseActivationResult {
                    success: true,
                    message: string_of(&v),
                    mode: LicenseValidationMode::Online,
                    expires,
                },
                write: Some(record),
                delete: false,
            };
        }
    }
    if server_said_invalid {
        let mut v: Vec<char> = Vec::new();
        match &error_message {
            Some(d) => append_str(&mut v, d.as_str()),
            None => append_str(&mut v, "License is not valid on the server."),
        }
        append_str(&mut v, " ");
        let hint = wrong_product_hint();
        append_str(&mut v, hint.as_str());
        return ActivationOutcome { result: fail(string_of(&v)), write: None, delete: true };
    }
    if !is_well_formed_token(token) {
        let m = match error_message {
            Some(d) => d,
            None => "Online validation failed and token format is invalid.".to_string(),
        };
        return ActivationOutcome { result: fail(m), write: None, delete: false };
    }
    if !offline_stub_allowed {
        let mut v: Vec<char> = Vec::new();
        match &error_message {
            Some(d) => append_str(&mut v, d.as_str()),
            None => append_str(&mut v, "Could not reach the license server."),
        }
        append_str(&mut v, " Purchase a Storm Sewer Pro key at ");
        append_str(&mut v, PURCHASE_URL);
        append_str(&mut v, " and try again.");
        return ActivationOutcome { result: fail(string_of(&v)), write: None, delete: false };
    }
    let stub = build_offline_stub_record(email, token, now_secs);
    let message = if was_network_attempt {
        crate::text::concat(
            "Pro activated (offline stub \u{2014} server unreachable; dev build only). Purchase: ",
            PURCHASE_URL,
        )
    } else {
        "Pro activated (offline stub \u{2014} dev build only).".to_string()
    };
    let expires = stub.expires.clone();
    ActivationOutcome {
        result: LicenseActivationResult {
            success: true,
            message,
            mode: LicenseValidationMode::OfflineStub,
            expires,
        },
        write: Some(stub),
        delete: false,
    }
}

// ------------------------------------------------------------------ periodic re-check

/// Days between two silent re-checks of a cached key with the server.
pub const RECHECK_INTERVAL_DAYS: u64 = 7;

/// Days a cached key keeps working after its last successful check while the
/// server cannot be reached.
pub const OFFLINE_GRACE_DAYS: u64 = 30;

/// Least time between two attempts to reach the server, in seconds.
pub const RETRY_SPACING_SECS: u64 = 86400;

/// Day number of the record's last successful check with the server.
pub open spec fn last_check_day(r: LicenseFields) -> Option<int> {
    date_prefix_days(r.last_validated)
}

/// A re-check is due: seven days have passed since the day of the last
/// successful check, or none is on record.
pub open spec fn recheck_due(r: LicenseFields, now_secs: int) -> bool {
    match last_check_day(r) {
        Some(d) => now_secs >= (d + RECHECK_INTERVAL_DAYS) * 86400,
        None => true,
    }
}

/// The offline grace holds: thirty days have not passed since the day of the
/// last successful check.
pub open spec fn within_grace(r: LicenseFields, now_secs: int) -> bool {
    match last_check_day(r) {
        Some(d) => now_secs < (d + OFFLINE_GRACE_DAYS) * 86400,
        None => false,
    }
}

/// No attempt to reach the server was made in the last day.
pub open spec fn may_retry(last_attempt: Option<u64>, now_secs: int) -> bool {
    match last_attempt {
        Some(t) => now_secs >= t + RETRY_SPACING_SECS,
        None => true,
    }
}

/// Whether a Pro command may run.
pub enum ProCheck {
    Granted,
    Denied,
    /// Ask the server first: send this request (with a short timeout), note
    /// the time of the attempt, and settle with [`settle_recheck`].
    Recheck(ValidationRequest),
}

fn last_check_day_of(r: &LicenseRecord) -> (d: Option<i64>)
    ensures
        match d {
            Some(z) => last_check_day(r@) == Some(z as int),
            None => last_check_day(r@) is None,
        },
{
    crate::dates::day_of_timestamp(r.last_validated.as_str())
}

fn is_recheck_due(r: &LicenseRecord, now_secs: u64) -> (b: bool)
    ensures
        b == recheck_due(r@, now_secs as int),
{
    match last_check_day_of(r) {
        Some(z) => (now_secs as i128) >= (z as i128 + 7) * 86400,
        None => true,
    }
}

fn is_within_grace(r: &LicenseRecord, now_secs: u64) -> (b: bool)
    ensures
        b == within_grace(r@, now_secs as int),
{
    match last_check_day_of(r) {
        Some(z) => (now_secs as i128) < (z as i128 + 30) * 86400,
        None => false,
    }
}

impl LicenseActivator {
    /// Whether a Pro command may run at `now_secs`, `last_attempt` being
    /// when the server was last tried. With the developer bypass on,
    /// or a license in force whose last check is under seven days old, the
    /// command runs. A license in force that is due for a re-check goes to
    /// the server, unless an attempt was made in the last day: then it keeps
    /// working within thirty days of its last check, and not after.
    pub fn pro_check(
        &self,
        dev_bypass: bool,
        stored: &Option<LicenseRecord>,
        now_secs: u64,
        last_attempt: Option<u64>,
    ) -> (r: ProCheck)
        requires
            !dev_bypass ==> (stored matches Some(rec) ==> expiry_readable(rec@)),
        ensures
            match r {
                ProCheck::Granted => dev_bypass || (stored matches Some(rec) && license_current(
                    rec@,
                    now_secs as int,
                ) && (!recheck_due(rec@, now_secs as int) || (!may_retry(
                    last_attempt,
                    now_secs as int,
                ) && within_grace(rec@, now_secs as int)))),
                ProCheck::Denied => !dev_bypass && !(stored matches Some(rec) && license_current(
                    rec@,
                    now_secs as int,
                ) && (!recheck_due(rec@, now_secs as int) || may_retry(last_attempt, now_secs as int)
                    || within_grace(rec@, now_secs as int))),
                ProCheck::Recheck(req) => {
                    &&& !dev_bypass
                    &&& stored matches Some(rec)
                    &&& license_current(rec@, now_secs as int)
                    &&& recheck_due(rec@, now_secs as int)
                    &&& may_retry(last_attempt, now_secs as int)
                    &&& request_for(req, self.url(), rec@.email, rec@.token)
                },
            },
    {
        if dev_bypass {
            return ProCheck::Granted;
        }
        match license_if_current(stored, now_secs) {
            None => ProCheck::Denied,
            Some(rec) => {
                if !is_recheck_due(&rec, now_secs) {
                    return ProCheck::Granted;
                }
                let retry = match last_attempt {
                    Some(t) => (now_secs as u128) >= (t as u128) + 86400,
                    None => true,
                };
                if retry {
                    ProCheck::Recheck(validation_request(&self.validate_url, rec.email, rec.token))
                } else if is_within_grace(&rec, now_secs) {
                    ProCheck::Granted
                } else {
                    ProCheck::Denied
                }
            },
        }
    }
}

/// How a re-check ends: whether the Pro command runs, the record to store
/// in the license file, and whether the cached license is to be deleted.
pub struct RecheckOutcome {
    pub granted: bool,
    pub write: Option<LicenseRecord>,
    pub delete: bool,
}

/// Settle the re-check of `stored` made at `now_secs`. A confirmed key is
/// stored afresh; a key the server rejects is deleted at once; when the
/// server could not be reached the cached license keeps working within the
/// offline grace.
pub fn settle_recheck(stored: &LicenseRecord, attempt: OnlineValidationAttempt, now_secs: u64) -> (r:
    RecheckOutcome)
    ensures
        ({
            let a = attempt@;
            if a.success && a.record is Some {
                r.granted && !r.delete && (r.write matches Some(w) && w@ == a.record->0)
            } else if a.server_said_invalid {
                !r.granted && r.delete && r.write is None
            } else {
                r.granted == within_grace(stored@, now_secs as int) && !r.delete && r.write is None
            }
        }),
        r.write matches Some(w) ==> w@.product == PRODUCT_ID@,
{
    proof {
        use_type_invariant(&attempt);
    }
    let OnlineValidationAttempt { success, server_said_invalid, record, .. } = attempt;
    if success {
        if let Some(rec) = record {
            return RecheckOutcome { granted: true, write: Some(rec), delete: false };
        }
    }
    if server_said_invalid {
        return RecheckOutcome { granted: false, write: None, delete: true };
    }
    RecheckOutcome { granted: is_within_grace(stored, now_secs), write: None, delete: false }
}

// ------------------------------------------------------------------ status labels

/// The date part of an ISO timestamp: its first ten bytes, or `None` when it
/// is shorter.
pub open spec fn expiry_date_text(s: Seq<char>) -> Option<Seq<char>> {
    if utf8_len(s) < 10 {
        None
    } else {
        byte_prefix(s, 10)
    }
}

pub fn format_expiry_date(iso: &str) -> (r: Option<String>)
    requires
        cut_ok(iso@, 10),
    ensures
        opt_text(r) == expiry_date_text(iso@),
{
    let v = chars_of(iso);
    if byte_len(&v) < 10 {
        return None;
    }
    match take_bytes(&v, 10) {
        Some(p) => Some(string_of(&p)),
        None => None,
    }
}

/// Whether Pro features are unlocked without asking the server: the
/// developer bypass is on, or the stored license is in force at `now_secs`
/// and its last successful check is within the offline grace.
pub fn is_pro_enabled(dev_bypass: bool, stored: &Option<LicenseRecord>, now_secs: u64) -> (r: bool)
    requires
        !dev_bypass ==> (stored matches Some(rec) ==> expiry_readable(rec@)),
    ensures
        r == pro_enabled_now(dev_bypass, fields_of(*stored), now_secs as int),
{
    if dev_bypass {
        return true;
    }
    match license_if_current(stored, now_secs) {
        Some(rec) => is_within_grace(&rec, now_secs),
        None => false,
    }
}

/// Reading the stored record for the status line does not fail.
pub open spec fn status_readable(r: LicenseFields) -> bool {
    &&& expiry_readable(r)
    &&& (r.product.len() == 0 || r.product == PRODUCT_ID@) ==> cut_ok(r.expires, 10)
}

fn can_cut(v: &Vec<char>, n: usize) -> (r: bool)
    ensures
        r == cut_ok(v@, n as nat),
{
    byte_len(v) < n as u128 || take_bytes(v, n).is_some()
}

/// Whether [`expiry_readable`] holds of `rec`: reading its expiry for the
/// in-force test does not fail.
pub fn is_expiry_readable(rec: &LicenseRecord) -> (r: bool)
    ensures
        r == expiry_readable(rec@),
{
    if !is_license_fields_valid(rec) {
        return true;
    }
    let t = trim_str(rec.expires.as_str());
    if !can_cut(&t, 10) {
        return false;
    }
    match crate::dates::day_of_timestamp(rec.expires.as_str()) {
        Some(z) => z >= 0,
        None => true,
    }
}

/// Whether [`status_readable`] holds of `rec`.
pub fn is_status_readable(rec: &LicenseRecord) -> (r: bool)
    ensures
        r == status_readable(rec@),
{
    if !is_expiry_readable(rec) {
        return false;
    }
    let p = chars_of(rec.product.as_str());
    if p.len() == 0 || chars_eq_str(&p, PRODUCT_ID) {
        let e = chars_of(rec.expires.as_str());
        can_cut(&e, 10)
    } else {
        true
    }
}

/// The license status line.
pub open spec fn status_text(dev_bypass: bool, stored: Option<LicenseFields>, now_secs: int) -> Seq<char> {
    if dev_bypass {
        "Pro ("@ + PRODUCT_LABEL@ + ", dev bypass: STORMSEWER_PRO=1)"@
    } else {
        match stored {
            None => "Free"@,
            Some(r) => if license_current(r, now_secs) && !within_grace(r, now_secs) {
                "Re-validation required ("@ + PRODUCT_LABEL@ + ", licensed to "@ + r.email
                    + ": no successful check in 30 days; run SS_ACTIVATE)"@
            } else if license_current(r, now_secs) {
                match expiry_date_text(r.expires) {
                    Some(x) => "Pro ("@ + PRODUCT_LABEL@ + ", licensed to "@ + r.email + ", expires "@
                        + x + ")"@,
                    None => "Pro ("@ + PRODUCT_LABEL@ + ", licensed to "@ + r.email + ")"@,
                }
            } else if r.product.len() > 0 && r.product != PRODUCT_ID@ {
                "Free (license file is for product '"@ + r.product + "', not "@ + PRODUCT_ID@ + ")"@
            } else {
                match expiry_date_text(r.expires) {
                    Some(x) => "Expired ("@ + PRODUCT_LABEL@ + ", was "@ + r.email + ", expired "@ + x
                        + ")"@,
                    None => "Free"@,
                }
            },
        }
    }
}

pub open spec fn fields_of(o: Option<LicenseRecord>) -> Option<LicenseFields> {
    match o {
        Some(r) => Some(r@),
        None => None,
    }
}

/// The license status line, from whether the developer bypass is on, the
/// stored license (if the file could be read) and the time.
pub fn status_label(dev_bypass: bool, stored: &Option<LicenseRecord>, now_secs: u64) -> (r: String)
    requires
        !dev_bypass ==> (stored matches Some(rec) ==> status_readable(rec@)),
    ensures
        r@ == status_text(dev_bypass, fields_of(*stored), now_secs as int),
{
    let mut v: Vec<char> = Vec::new();
    if dev_bypass {
        append_str(&mut v, "Pro (");
        append_str(&mut v, PRODUCT_LABEL);
        append_str(&mut v, ", dev bypass: STORMSEWER_PRO=1)");
        return string_of(&v);
    }
    let rec = match stored {
        None => {
            return "Free".to_string();
        },
        Some(rec) => rec,
    };
    if let Some(license) = license_if_current(stored, now_secs) {
        if !is_within_grace(&license, now_secs) {
            append_str(&mut v, "Re-validation required (");
            append_str(&mut v, PRODUCT_LABEL);
            append_str(&mut v, ", licensed to ");
            append_str(&mut v, license.email.as_str());
            append_str(&mut v, ": no successful check in 30 days; run SS_ACTIVATE)");
            return string_of(&v);
        }
        if let Some(expires) = format_expiry_date(license.expires.as_str()) {
            append_str(&mut v, "Pro (");
            append_str(&mut v, PRODUCT_LABEL);
            append_str(&mut v, ", licensed to ");
            append_str(&mut v, license.email.as_str());
            append_str(&mut v, ", expires ");
            append_str(&mut v, expires.as_str());
            append_str(&mut v, ")");
            return string_of(&v);
        }
        append_str(&mut v, "Pro (");
        append_str(&mut v, PRODUCT_LABEL);
        append_str(&mut v, ", licensed to ");
        append_str(&mut v, license.email.as_str());
        append_str(&mut v, ")");
        return string_of(&v);
    }
    let p = chars_of(rec.product.as_str());
    if p.len() > 0 && !chars_eq_str(&p, PRODUCT_ID) {
        append_str(&mut v, "Free (license file is for product '");
        append_str(&mut v, rec.product.as_str());
        append_str(&mut v, "', not ");
        append_str(&mut v, PRODUCT_ID);
        append_str(&mut v, ")");
        return string_of(&v);
    }
    if let Some(expires) = format_expiry_date(rec.expires.as_str()) {
        append_str(&mut v, "Expired (");
        append_str(&mut v, PRODUCT_LABEL);
        append_str(&mut v, ", was ");
        append_str(&mut v, rec.email.as_str());
        append_str(&mut v, ", expired ");
        append_str(&mut v, expires.as_str());
        append_str(&mut v, ")");
        return string_of(&v);
    }
    "Free".to_string()
}

/// How the stored license was validated.
pub open spec fn validation_mode_text(dev_bypass: bool, stored: Option<LicenseFields>) -> Seq<char> {
    if dev_bypass {
        "dev-bypass"@
    } else {
        match stored {
            None => "none"@,
            Some(r) => if trim(r.validation_mode).len() == 0 {
                "local-file"@
            } else {
                r.validation_mode
            },
        }
    }
}

pub fn validation_mode_label(dev_bypass: bool, stored: &Option<LicenseRecord>) -> (r: String)
    ensures
        r@ == validation_mode_text(dev_bypass, fields_of(*stored)),
{
    if dev_bypass {
        return "dev-bypass".to_string();
    }
    match stored {
        None => "none".to_string(),
        Some(rec) => {
            let m = trim_str(rec.validation_mode.as_str());
            if m.len() == 0 {
                "local-file".to_string()
            } else {
                rec.validation_mode.clone()
            }
        },
    }
}

/// Reading the stored last-validation time does not fail.
pub open spec fn last_validated_readable(r: LicenseFields) -> bool {
    trim(r.last_validated).len() > 0 ==> cut_ok(r.last_validated, 10)
}

/// Whether [`last_validated_readable`] holds of `rec`.
pub fn is_last_validated_readable(rec: &LicenseRecord) -> (r: bool)
    ensures
        r == last_validated_readable(rec@),
{
    let t = trim_str(rec.last_validated.as_str());
    if t.len() == 0 {
        return true;
    }
    let v = chars_of(rec.last_validated.as_str());
    can_cut(&v, 10)
}

/// When the stored license was last validated.
pub open spec fn last_validated_text(dev_bypass: bool, stored: Option<LicenseFields>) -> Seq<char> {
    if dev_bypass {
        "n/a (dev bypass)"@
    } else {
        match stored {
            None => "never"@,
            Some(r) => if trim(r.last_validated).len() == 0 {
                "never"@
            } else {
                or_default(expiry_date_text(r.last_validated), r.last_validated)
            },
        }
    }
}

pub fn last_validated_label(dev_bypass: bool, stored: &Option<LicenseRecord>) -> (r: String)
    requires
        !dev_bypass ==> (stored matches Some(rec) ==> last_validated_readable(rec@)),
    ensures
        r@ == last_validated_text(dev_bypass, fields_of(*stored)),
{
    if dev_bypass {
        return "n/a (dev bypass)".to_string();
    }
    match stored {
        None => "never".to_string(),
        Some(rec) => {
            let t = trim_str(rec.last_validated.as_str());
            if t.len() == 0 {
                return "never".to_string();
            }
            match format_expiry_date(rec.last_validated.as_str()) {
                Some(d) => d,
                None => rec.last_validated.clone(),
            }
        },
    }
}

/// Whether the license was confirmed online.
pub open spec fn online_offline_text(dev_bypass: bool, stored: Option<LicenseFields>) -> Seq<char> {
    if dev_bypass {
        "offline (environment bypass)"@
    } else {
        let mode = validation_mode_text(false, stored);
        if mode == "online"@ {
            "online (server validated)"@
        } else if mode == "offline-stub"@ {
            "offline (local beta stub, dev build only)"@
        } else if mode == "none"@ {
            "offline (no license)"@
        } else {
            "offline (local file)"@
        }
    }
}

pub fn online_offline_label(dev_bypass: bool, stored: &Option<LicenseRecord>) -> (r: String)
    ensures
        r@ == online_offline_text(dev_bypass, fields_of(*stored)),
{
    if dev_bypass {
        return "offline (environment bypass)".to_string();
    }
    let mode = validation_mode_label(false, stored);
    let m = chars_of(mode.as_str());
    if chars_eq_str(&m, "online") {
        "online (server validated)".to_string()
    } else if chars_eq_str(&m, "offline-stub") {
        "offline (local beta stub, dev build only)".to_string()
    } else if chars_eq_str(&m, "none") {
        "offline (no license)".to_string()
    } else {
        "offline (local file)".to_string()
    }
}

// ------------------------------------------------------------------ laws

/// Law: a license file for another product (an `opencad` or `civil3d` key)
/// is never in force here, whatever its dates.
pub proof fn law_other_product_never_in_force(r: LicenseFields, now_secs: int)
    requires
        r.product != PRODUCT_ID@,
    ensures
        !license_current(r, now_secs),
{
}

/// Law: a key the server confirms at `now_secs` is stored with that day as
/// its last successful check; no re-check falls due for seven days from that
/// day, and the offline grace runs thirty days from it (dates with four-digit
/// years).
pub proof fn law_confirmed_key_fresh(
    email: Seq<char>,
    token: Seq<char>,
    status: u16,
    body: Seq<char>,
    now_secs: nat,
    a: AttemptView,
    later: int,
)
    requires
        reply_attempt(email, token, status, body, now_secs, a),
        a.success,
        date_of_day((now_secs / 86400) as int).0 <= 9999,
    ensures
        a.record matches Some(r) && {
            &&& last_check_day(r) == Some((now_secs / 86400) as int)
            &&& recheck_due(r, later) == (later >= (now_secs / 86400 + 7) * 86400)
            &&& within_grace(r, later) == (later < (now_secs / 86400 + 30) * 86400)
        },
{
    law_timestamp_day_roundtrip(now_secs);
}

/// Law: a record whose expiry was written as the timestamp of second
/// `expiry_secs` is in force exactly before the day holding that second
/// begins (dates with four-digit years), when its other fields are valid.
pub proof fn law_written_expiry_read_back(r: LicenseFields, expiry_secs: nat, now_secs: int)
    requires
        r.expires == iso_timestamp(expiry_secs),
        trim(r.email).len() > 0,
        trim(r.token).len() > 0,
        r.product == PRODUCT_ID@,
        date_of_day((expiry_secs / 86400) as int).0 <= 9999,
    ensures
        license_current(r, now_secs) == (now_secs < (expiry_secs / 86400) * 86400),
{
    law_timestamp_day_roundtrip(expiry_secs);
    assert(trim(r.expires).len() > 0) by {
        if trim(r.expires).len() == 0 {
            assert(utf8_len(trim(r.expires)) == 0);
        }
    }
}

proof fn lemma_trim_plain(s: Seq<char>)
    requires
        forall|i: int| 0 <= i < s.len() ==> !is_ws(#[trigger] s[i]),
    ensures
        trim(s) == s,
{
    if s.len() > 0 {
        assert(!is_ws(s[0]));
        assert(!is_ws(s[s.len() - 1]));
    }
}

/// Law: pasting `email token` on one line gives back the email and the
/// token, for an email with an `@` and a well-formed token, neither holding
/// whitespace.
pub proof fn law_combined_input_roundtrip(email: Seq<char>, token: Seq<char>)
    requires
        email.contains('@'),
        token_well_formed(token),
        forall|i: int| 0 <= i < email.len() ==> !is_ws(#[trigger] email[i]),
        forall|i: int| 0 <= i < token.len() ==> !is_ws(#[trigger] token[i]),
    ensures
        combined_input(email + seq![' '] + token) == Some((email, token)),
{
    let s = email + seq![' '] + token;
    let n = email.len() as int;
    lemma_trim_plain(email);
    lemma_trim_plain(token);
    assert(token.len() > 0) by {
        reveal_strlit("hc_live_");
        assert(TOKEN_PREFIX@.len() == 8);
    }
    assert forall|i: int| 0 <= i < s.len() && i != n implies !is_ws(#[trigger] s[i]) by {
        if i < n {
            assert(s[i] == email[i]);
        } else {
            assert(s[i] == token[i - n - 1]);
        }
    }
    assert(email.len() > 0);
    assert(!is_ws(s[0]));
    assert(!is_ws(s[s.len() - 1]));
    assert(trim_start(s) == s);
    assert(trim_end(s) == s);
    assert(s[n] == ' ');
    let i = crate::text::first_index(s, ' ')->0;
    assert(0 <= i < s.len() && s[i] == ' ' && forall|k: int| 0 <= k < i ==> s[k] != ' ');
    if i < n {
        assert(s[i] == email[i]);
        assert(!is_ws(email[i]));
    }
    if i > n {
        assert(s[n] != ' ');
    }
    assert(i == n);
    assert(s.take(n) =~= email);
    assert(s.skip(n + 1) =~= token);
}

/// Whether Pro is on without asking the server, as [`is_pro_enabled`] says.
pub open spec fn pro_enabled_now(dev_bypass: bool, stored: Option<LicenseFields>, now_secs: int) -> bool {
    dev_bypass || (stored matches Some(r) && license_current(r, now_secs) && within_grace(r, now_secs))
}

proof fn lemma_starts_with_pro(s: Seq<char>)
    ensures
        has_prefix(s, "Pro"@) == (s.len() >= 3 && s[0] == 'P' && s[1] == 'r' && s[2] == 'o'),
{
    reveal_strlit("Pro");
    if s.len() >= 3 && s[0] == 'P' && s[1] == 'r' && s[2] == 'o' {
        assert(s.take(3) =~= "Pro"@);
    }
    if has_prefix(s, "Pro"@) {
        assert(s.take(3)[0] == s[0] && s.take(3)[1] == s[1] && s.take(3)[2] == s[2]);
    }
}

/// Law: the status line begins with "Pro" exactly when Pro is on without
/// asking the server; otherwise it begins "Re-validation required",
/// "Expired" or "Free".
pub proof fn law_status_says_pro_when_enabled(dev_bypass: bool, stored: Option<LicenseFields>, now_secs: int)
    ensures
        has_prefix(status_text(dev_bypass, stored, now_secs), "Pro"@) == pro_enabled_now(
            dev_bypass,
            stored,
            now_secs,
        ),
{
    reveal_strlit("Pro (");
    reveal_strlit("Free");
    reveal_strlit("Re-validation required (");
    reveal_strlit("Free (license file is for product '");
    reveal_strlit("Expired (");
    lemma_starts_with_pro(status_text(dev_bypass, stored, now_secs));
}

} // verus!
