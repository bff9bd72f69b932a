//! `SS_PARAMS`: reading the subcommand that changes a tab's analysis
//! parameters.
//!
//! The parameters themselves are reals held by the hydraulic engine; this
//! module decides what a command line asks for, or which message refuses
//! it. Real-valued arguments are handed on as the words the user typed.

use vstd::prelude::*;

use crate::text::{
    append, append_str, chars_eq_str, chars_of, decimal, dec, parse_u32, parse_unsigned,
    split_words, string_of, words,
};

verus! {

/// A real-valued parameter that `SS_PARAMS <KEY> <value>` sets.
#[derive(Clone, Copy, Debug, PartialEq, Eq, Structural)]
pub enum RealParam {
    /// `MINTC`: minimum time of concentration, minutes.
    MinTc,
    /// `JUNCTIONK` / `JK`: junction loss coefficient.
    JunctionK,
    /// `VMIN`: minimum velocity, ft/s.
    MinVelocity,
    /// `VMAX`: maximum velocity, ft/s.
    MaxVelocity,
    /// `MAXFULL` / `PFULL`: largest percent full.
    MaxPctFull,
    /// `CURBLEN` / `CURBOPEN`: curb opening length, ft.
    CurbLength,
    /// `INLETLEN` / `GRATE`: inlet grate length, ft.
    GrateLength,
    /// `INLETD` / `CURBDEPTH`: curb flow depth at the inlet, ft.
    FlowDepth,
    /// `INLETS` / `GUTTERS`: gutter slope at the inlet, ft/ft.
    GutterSlope,
}

/// What an `SS_PARAMS` line asks of the tab's parameters.
pub enum ParamsChange {
    /// No words: print the parameter summary.
    Show,
    /// `RP <years>`: make this the design return period.
    ReturnPeriod(u32),
    /// `IDF [rp] <a> <b> <c>`: set the IDF coefficients of `rp` (the design
    /// return period when `None`) and make it the design return period.
    Idf { rp: Option<u32>, a: String, b: String, c: String },
    /// `TAILWATER NONE` / `TAILWATER FREE`: free outfall.
    FreeTailwater,
    /// `TAILWATER <elev>`: the word, upper-cased.
    Tailwater(String),
    /// `<KEY> <value>` for a real-valued parameter.
    Real(RealParam, String),
    /// `INLETKIND <kind>`.
    InletKind(String),
    /// `RESET`: back to the municipal defaults.
    Reset,
}

/// The plain content of a [`ParamsChange`].
pub enum ParamsChangeView {
    Show,
    ReturnPeriod(u32),
    Idf(Option<u32>, Seq<char>, Seq<char>, Seq<char>),
    FreeTailwater,
    Tailwater(Seq<char>),
    Real(RealParam, Seq<char>),
    InletKind(Seq<char>),
    Reset,
}

impl View for ParamsChange {
    type V = ParamsChangeView;

    open spec fn view(&self) -> ParamsChangeView {
        match self {
            ParamsChange::Show => ParamsChangeView::Show,
            ParamsChange::ReturnPeriod(n) => ParamsChangeView::ReturnPeriod(*n),
            ParamsChange::Idf { rp, a, b, c } => ParamsChangeView::Idf(*rp, a@, b@, c@),
            ParamsChange::FreeTailwater => ParamsChangeView::FreeTailwater,
            ParamsChange::Tailwater(v) => ParamsChangeView::Tailwater(v@),
            ParamsChange::Real(p, v) => ParamsChangeView::Real(*p, v@),
            ParamsChange::InletKind(k) => ParamsChangeView::InletKind(k@),
            ParamsChange::Reset => ParamsChangeView::Reset,
        }
    }
}

/// `char::to_ascii_uppercase`.
pub open spec fn upper(c: char) -> char {
    if 'a' <= c && c <= 'z' {
        ((c as u32) - 32) as char
    } else {
        c
    }
}

pub open spec fn uppercase(s: Seq<char>) -> Seq<char> {
    s.map_values(|c: char| upper(c))
}

pub fn to_ascii_uppercase(s: &Vec<char>) -> (r: Vec<char>)
    ensures
        r@ == uppercase(s@),
{
    let mut r: Vec<char> = Vec::new();
    let mut i: usize = 0;
    while i < s.len()
        invariant
            i <= s.len(),
            r@ == uppercase(s@.take(i as int)),
        decreases s.len() - i,
    {
        let c = s[i];
        let u = if 'a' <= c && c <= 'z' {
            ((c as u32 - 32) as u8) as char
        } else {
            c
        };
        assert(u == upper(c)) by {
            if 'a' <= c && c <= 'z' {
                assert(((c as u32 - 32) as u8) as char == ((c as u32) - 32) as char);
            }
        }
        r.push(u);
        i = i + 1;
        assert(r@ =~= uppercase(s@.take(i as int)));
    }
    assert(s@.take(s.len() as int) =~= s@);
    r
}

/// The real-valued parameter a key names.
pub open spec fn real_param_of(key: Seq<char>) -> Option<RealParam> {
    if key == "MINTC"@ {
        Some(RealParam::MinTc)
    } else if key == "JUNCTIONK"@ || key == "JK"@ {
        Some(RealParam::JunctionK)
    } else if key == "VMIN"@ {
        Some(RealParam::MinVelocity)
    } else if key == "VMAX"@ {
        Some(RealParam::MaxVelocity)
    } else if key == "MAXFULL"@ || key == "PFULL"@ {
        Some(RealParam::MaxPctFull)
    } else if key == "CURBLEN"@ || key == "CURBOPEN"@ {
        Some(RealParam::CurbLength)
    } else if key == "INLETLEN"@ || key == "GRATE"@ {
        Some(RealParam::GrateLength)
    } else if key == "INLETD"@ || key == "CURBDEPTH"@ {
        Some(RealParam::FlowDepth)
    } else if key == "INLETS"@ || key == "GUTTERS"@ {
        Some(RealParam::GutterSlope)
    } else {
        None
    }
}

/// The usage line printed when a real-valued key comes without its value.
pub open spec fn real_usage(p: RealParam) -> Seq<char> {
    match p {
        RealParam::MinTc => "SS_PARAMS MINTC <minutes>"@,
        RealParam::JunctionK => "SS_PARAMS JUNCTIONK <k>"@,
        RealParam::MinVelocity => "SS_PARAMS VMIN <ft/s>"@,
        RealParam::MaxVelocity => "SS_PARAMS VMAX <ft/s>"@,
        RealParam::MaxPctFull => "SS_PARAMS MAXFULL <percent>"@,
        RealParam::CurbLength => "SS_PARAMS CURBLEN <ft>"@,
        RealParam::GrateLength => "SS_PARAMS INLETLEN <ft>"@,
        RealParam::FlowDepth => "SS_PARAMS INLETD <ft>"@,
        RealParam::GutterSlope => "SS_PARAMS INLETS <ft/ft>"@,
    }
}

pub open spec fn is_rp_key(key: Seq<char>) -> bool {
    key == "RP"@ || key == "RETURN"@
}

pub open spec fn is_tailwater_key(key: Seq<char>) -> bool {
    key == "TAILWATER"@ || key == "TW"@
}

pub open spec fn is_inlet_kind_key(key: Seq<char>) -> bool {
    key == "INLETKIND"@ || key == "INLETTYPE"@ || key == "INLET"@
}

pub const KEYS_LIST: &'static str = "`. Keys: RP, IDF, TAILWATER, MINTC, JUNCTIONK, VMIN, VMAX, MAXFULL, INLETKIND, INLETLEN, CURBLEN, INLETD, INLETS, RESET";

pub open spec fn unknown_key_message(key: Seq<char>) -> Seq<char> {
    "Unknown SS_PARAMS key `"@ + key + KEYS_LIST@
}

/// What `SS_PARAMS rest` asks for, or the message refusing it. The key is
/// matched without regard to ASCII case; further words are ignored.
pub open spec fn params_change_of(rest: Seq<char>) -> Result<ParamsChangeView, Seq<char>> {
    let t = words(rest);
    if t.len() == 0 {
        Ok(ParamsChangeView::Show)
    } else {
        let key = uppercase(t[0]);
        if is_rp_key(key) {
            if t.len() < 2 {
                Err("SS_PARAMS RP needs return period years (e.g. SS_PARAMS RP 25)"@)
            } else {
                match parse_unsigned(t[1], u32::MAX as nat) {
                    Some(n) => Ok(ParamsChangeView::ReturnPeriod(n as u32)),
                    None => Err("return period must be an integer year"@),
                }
            }
        } else if key == "IDF"@ {
            if t.len() == 5 {
                match parse_unsigned(t[1], u32::MAX as nat) {
                    Some(n) => Ok(ParamsChangeView::Idf(Some(n as u32), t[2], t[3], t[4])),
                    None => Err("IDF return period must be integer"@),
                }
            } else if t.len() == 4 {
                Ok(ParamsChangeView::Idf(None, t[1], t[2], t[3]))
            } else {
                Err("SS_PARAMS IDF [rp] <a> <b> <c>  (e.g. SS_PARAMS IDF 60 10 0.8)"@)
            }
        } else if is_tailwater_key(key) {
            if t.len() < 2 {
                Err("SS_PARAMS TAILWATER <elev_ft> | NONE"@)
            } else {
                let v = uppercase(t[1]);
                if v == "NONE"@ || v == "FREE"@ {
                    Ok(ParamsChangeView::FreeTailwater)
                } else {
                    Ok(ParamsChangeView::Tailwater(v))
                }
            }
        } else if real_param_of(key) is Some {
            let p = real_param_of(key)->0;
            if t.len() < 2 {
                Err(real_usage(p))
            } else {
                Ok(ParamsChangeView::Real(p, t[1]))
            }
        } else if is_inlet_kind_key(key) {
            if t.len() < 2 {
                Err("SS_PARAMS INLETKIND grate|curb|combo|sag"@)
            } else {
                Ok(ParamsChangeView::InletKind(t[1]))
            }
        } else if key == "RESET"@ {
            Ok(ParamsChangeView::Reset)
        } else {
            Err(unknown_key_message(key))
        }
    }
}

fn real_param(key: &Vec<char>) -> (r: Option<RealParam>)
    ensures
        r == real_param_of(key@),
{
    if chars_eq_str(key, "MINTC") {
        Some(RealParam::MinTc)
    } else if chars_eq_str(key, "JUNCTIONK") || chars_eq_str(key, "JK") {
        Some(RealParam::JunctionK)
    } else if chars_eq_str(key, "VMIN") {
        Some(RealParam::MinVelocity)
    } else if chars_eq_str(key, "VMAX") {
        Some(RealParam::MaxVelocity)
    } else if chars_eq_str(key, "MAXFULL") || chars_eq_str(key, "PFULL") {
        Some(RealParam::MaxPctFull)
    } else if chars_eq_str(key, "CURBLEN") || chars_eq_str(key, "CURBOPEN") {
        Some(RealParam::CurbLength)
    } else if chars_eq_str(key, "INLETLEN") || chars_eq_str(key, "GRATE") {
        Some(RealParam::GrateLength)
    } else if chars_eq_str(key, "INLETD") || chars_eq_str(key, "CURBDEPTH") {
        Some(RealParam::FlowDepth)
    } else if chars_eq_str(key, "INLETS") || chars_eq_str(key, "GUTTERS") {
        Some(RealParam::GutterSlope)
    } else {
        None
    }
}

fn real_usage_str(p: RealParam) -> (r: &'static str)
    ensures
        r@ == real_usage(p),
{
    match p {
        RealParam::MinTc => "SS_PARAMS MINTC <minutes>",
        RealParam::JunctionK => "SS_PARAMS JUNCTIONK <k>",
        RealParam::MinVelocity => "SS_PARAMS VMIN <ft/s>",
        RealParam::MaxVelocity => "SS_PARAMS VMAX <ft/s>",
        RealParam::MaxPctFull => "SS_PARAMS MAXFULL <percent>",
        RealParam::CurbLength => "SS_PARAMS CURBLEN <ft>",
        RealParam::GrateLength => "SS_PARAMS INLETLEN <ft>",
        RealParam::FlowDepth => "SS_PARAMS INLETD <ft>",
        RealParam::GutterSlope => "SS_PARAMS INLETS <ft/ft>",
    }
}

fn err_text(s: &str) -> (r: Result<ParamsChange, String>)
    ensures
        r matches Err(m) && m@ == s@,
{
    let v = chars_of(s);
    Err(string_of(&v))
}

/// Reads `SS_PARAMS rest`: what it asks of the tab's parameters, or the
/// message that refuses it.
pub fn apply_params(rest: &str) -> (r: Result<ParamsChange, String>)
    ensures
        match (r, params_change_of(rest@)) {
            (Ok(c), Ok(v)) => c@ == v,
            (Err(m), Err(e)) => m@ == e,
            _ => false,
        },
{
    let chars = chars_of(rest);
    let t = split_words(&chars);
    proof {
        assert(t@.len() == words(rest@).len());
    }
    if t.len() == 0 {
        return Ok(ParamsChange::Show);
    }
    proof {
        assert(t@[0]@ == words(rest@)[0]);
    }
    let key = to_ascii_uppercase(&t[0]);
    if chars_eq_str(&key, "RP") || chars_eq_str(&key, "RETURN") {
        if t.len() < 2 {
            return err_text("SS_PARAMS RP needs return period years (e.g. SS_PARAMS RP 25)");
        }
        assert(t@[1]@ == words(rest@)[1]);
        return match parse_u32(&t[1]) {
            Some(n) => Ok(ParamsChange::ReturnPeriod(n)),
            None => err_text("return period must be an integer year"),
        };
    }
    if chars_eq_str(&key, "IDF") {
        if t.len() == 5 {
            assert(t@[1]@ == words(rest@)[1]);
            assert(t@[2]@ == words(rest@)[2]);
            assert(t@[3]@ == words(rest@)[3]);
            assert(t@[4]@ == words(rest@)[4]);
            return match parse_u32(&t[1]) {
                Some(n) => Ok(
                    ParamsChange::Idf {
                        rp: Some(n),
                        a: string_of(&t[2]),
                        b: string_of(&t[3]),
                        c: string_of(&t[4]),
                    },
                ),
                None => err_text("IDF return period must be integer"),
            };
        } else if t.len() == 4 {
            assert(t@[1]@ == words(rest@)[1]);
            assert(t@[2]@ == words(rest@)[2]);
            assert(t@[3]@ == words(rest@)[3]);
            return Ok(
                ParamsChange::Idf {
                    rp: None,
                    a: string_of(&t[1]),
                    b: string_of(&t[2]),
                    c: string_of(&t[3]),
                },
            );
        } else {
            return err_text("SS_PARAMS IDF [rp] <a> <b> <c>  (e.g. SS_PARAMS IDF 60 10 0.8)");
        }
    }
    if chars_eq_str(&key, "TAILWATER") || chars_eq_str(&key, "TW") {
        if t.len() < 2 {
            return err_text("SS_PARAMS TAILWATER <elev_ft> | NONE");
        }
        assert(t@[1]@ == words(rest@)[1]);
        let v = to_ascii_uppercase(&t[1]);
        if chars_eq_str(&v, "NONE") || chars_eq_str(&v, "FREE") {
            return Ok(ParamsChange::FreeTailwater);
        }
        return Ok(ParamsChange::Tailwater(string_of(&v)));
    }
    match real_param(&key) {
        Some(p) => {
            if t.len() < 2 {
                return err_text(real_usage_str(p));
            }
            assert(t@[1]@ == words(rest@)[1]);
            return Ok(ParamsChange::Real(p, string_of(&t[1])));
        },
        None => {},
    }
    if chars_eq_str(&key, "INLETKIND") || chars_eq_str(&key, "INLETTYPE") || chars_eq_str(
        &key,
        "INLET",
    ) {
        if t.len() < 2 {
            return err_text("SS_PARAMS INLETKIND grate|curb|combo|sag");
        }
        assert(t@[1]@ == words(rest@)[1]);
        return Ok(ParamsChange::InletKind(string_of(&t[1])));
    }
    if chars_eq_str(&key, "RESET") {
        return Ok(ParamsChange::Reset);
    }
    let mut m = chars_of("Unknown SS_PARAMS key `");
    append(&mut m, &key);
    append_str(&mut m, KEYS_LIST);
    Err(string_of(&m))
}


/// Law: each real-valued key sets its own parameter, whatever the letter
/// case, to the word that follows it: `MINTC`; `JUNCTIONK` / `JK`; `VMIN`;
/// `VMAX`; `MAXFULL` / `PFULL`; `CURBLEN` / `CURBOPEN` (curb opening length);
/// `INLETLEN` / `GRATE` (grate length); `INLETD` / `CURBDEPTH`; `INLETS` /
/// `GUTTERS`.
pub proof fn law_real_keys(rest: Seq<char>)
    requires
        words(rest).len() >= 2,
    ensures
        ({
            let key = uppercase(words(rest)[0]);
            let v = words(rest)[1];
            &&& key == "MINTC"@ ==> params_change_of(rest) == Ok::<ParamsChangeView, Seq<char>>(
                ParamsChangeView::Real(RealParam::MinTc, v),
            )
            &&& (key == "JUNCTIONK"@ || key == "JK"@) ==> params_change_of(rest) == Ok::<
                ParamsChangeView,
                Seq<char>,
            >(ParamsChangeView::Real(RealParam::JunctionK, v))
            &&& key == "VMIN"@ ==> params_change_of(rest) == Ok::<ParamsChangeView, Seq<char>>(
                ParamsChangeView::Real(RealParam::MinVelocity, v),
            )
            &&& key == "VMAX"@ ==> params_change_of(rest) == Ok::<ParamsChangeView, Seq<char>>(
                ParamsChangeView::Real(RealParam::MaxVelocity, v),
            )
            &&& (key == "MAXFULL"@ || key == "PFULL"@) ==> params_change_of(rest) == Ok::<
                ParamsChangeView,
                Seq<char>,
            >(ParamsChangeView::Real(RealParam::MaxPctFull, v))
            &&& (key == "CURBLEN"@ || key == "CURBOPEN"@) ==> params_change_of(rest) == Ok::<
                ParamsChangeView,
                Seq<char>,
            >(ParamsChangeView::Real(RealParam::CurbLength, v))
            &&& (key == "INLETLEN"@ || key == "GRATE"@) ==> params_change_of(rest) == Ok::<
                ParamsChangeView,
                Seq<char>,
            >(ParamsChangeView::Real(RealParam::GrateLength, v))
            &&& (key == "INLETD"@ || key == "CURBDEPTH"@) ==> params_change_of(rest) == Ok::<
                ParamsChangeView,
                Seq<char>,
            >(ParamsChangeView::Real(RealParam::FlowDepth, v))
            &&& (key == "INLETS"@ || key == "GUTTERS"@) ==> params_change_of(rest) == Ok::<
                ParamsChangeView,
                Seq<char>,
            >(ParamsChangeView::Real(RealParam::GutterSlope, v))
        }),
{
    let key = uppercase(words(rest)[0]);
    lemma_real_key_not_other(key);
    lemma_real_param_table();
}

proof fn lemma_real_param_table()
    ensures
        real_param_of("MINTC"@) == Some(RealParam::MinTc),
        real_param_of("JUNCTIONK"@) == Some(RealParam::JunctionK),
        real_param_of("JK"@) == Some(RealParam::JunctionK),
        real_param_of("VMIN"@) == Some(RealParam::MinVelocity),
        real_param_of("VMAX"@) == Some(RealParam::MaxVelocity),
        real_param_of("MAXFULL"@) == Some(RealParam::MaxPctFull),
        real_param_of("PFULL"@) == Some(RealParam::MaxPctFull),
        real_param_of("CURBLEN"@) == Some(RealParam::CurbLength),
        real_param_of("CURBOPEN"@) == Some(RealParam::CurbLength),
        real_param_of("INLETLEN"@) == Some(RealParam::GrateLength),
        real_param_of("GRATE"@) == Some(RealParam::GrateLength),
        real_param_of("INLETD"@) == Some(RealParam::FlowDepth),
        real_param_of("CURBDEPTH"@) == Some(RealParam::FlowDepth),
        real_param_of("INLETS"@) == Some(RealParam::GutterSlope),
        real_param_of("GUTTERS"@) == Some(RealParam::GutterSlope),
{
    assert(real_param_of("MINTC"@) == Some(RealParam::MinTc)) by {
        reveal_strlit("MINTC");
    }
    assert(real_param_of("JUNCTIONK"@) == Some(RealParam::JunctionK)) by {
        reveal_strlit("JUNCTIONK");
        reveal_strlit("MINTC");
        assert("JUNCTIONK"@.len() != "MINTC"@.len());
    }
    assert(real_param_of("JK"@) == Some(RealParam::JunctionK)) by {
        reveal_strlit("JK");
        reveal_strlit("MINTC");
        assert("JK"@.len() != "MINTC"@.len());
        reveal_strlit("JUNCTIONK");
        assert("JK"@.len() != "JUNCTIONK"@.len());
    }
    assert(real_param_of("VMIN"@) == Some(RealParam::MinVelocity)) by {
        reveal_strlit("VMIN");
        reveal_strlit("MINTC");
        assert("VMIN"@.len() != "MINTC"@.len());
        reveal_strlit("JUNCTIONK");
        assert("VMIN"@.len() != "JUNCTIONK"@.len());
        reveal_strlit("JK");
        assert("VMIN"@.len() != "JK"@.len());
    }
    assert(real_param_of("VMAX"@) == Some(RealParam::MaxVelocity)) by {
        reveal_strlit("VMAX");
        reveal_strlit("MINTC");
        assert("VMAX"@.len() != "MINTC"@.len());
        reveal_strlit("JUNCTIONK");
        assert("VMAX"@.len() != "JUNCTIONK"@.len());
        reveal_strlit("JK");
        assert("VMAX"@.len() != "JK"@.len());
        reveal_strlit("VMIN");
        assert("VMAX"@[2] != "VMIN"@[2]);
    }
    assert(real_param_of("MAXFULL"@) == Some(RealParam::MaxPctFull)) by {
        reveal_strlit("MAXFULL");
        reveal_strlit("MINTC");
        assert("MAXFULL"@.len() != "MINTC"@.len());
        reveal_strlit("JUNCTIONK");
        assert("MAXFULL"@.len() != "JUNCTIONK"@.len());
        reveal_strlit("JK");
        assert("MAXFULL"@.len() != "JK"@.len());
        reveal_strlit("VMIN");
        assert("MAXFULL"@.len() != "VMIN"@.len());
        reveal_strlit("VMAX");
        assert("MAXFULL"@.len() != "VMAX"@.len());
    }
    assert(real_param_of("PFULL"@) == Some(RealParam::MaxPctFull)) by {
        reveal_strlit("PFULL");
        reveal_strlit("MINTC");
        assert("PFULL"@[0] != "MINTC"@[0]);
        reveal_strlit("JUNCTIONK");
        assert("PFULL"@.len() != "JUNCTIONK"@.len());
        reveal_strlit("JK");
        assert("PFULL"@.len() != "JK"@.len());
        reveal_strlit("VMIN");
        assert("PFULL"@.len() != "VMIN"@.len());
        reveal_strlit("VMAX");
        assert("PFULL"@.len() != "VMAX"@.len());
        reveal_strlit("MAXFULL");
        assert("PFULL"@.len() != "MAXFULL"@.len());
    }
    assert(real_param_of("CURBLEN"@) == Some(RealParam::CurbLength)) by {
        reveal_strlit("CURBLEN");
        reveal_strlit("MINTC");
        assert("CURBLEN"@.len() != "MINTC"@.len());
        reveal_strlit("JUNCTIONK");
        assert("CURBLEN"@.len() != "JUNCTIONK"@.len());
        reveal_strlit("JK");
        assert("CURBLEN"@.len() != "JK"@.len());
        reveal_strlit("VMIN");
        assert("CURBLEN"@.len() != "VMIN"@.len());
        reveal_strlit("VMAX");
        assert("CURBLEN"@.len() != "VMAX"@.len());
        reveal_strlit("MAXFULL");
        assert("CURBLEN"@[0] != "MAXFULL"@[0]);
        reveal_strlit("PFULL");
        assert("CURBLEN"@.len() != "PFULL"@.len());
    }
    assert(real_param_of("CURBOPEN"@) == Some(RealParam::CurbLength)) by {
        reveal_strlit("CURBOPEN");
        reveal_strlit("MINTC");
        assert("CURBOPEN"@.len() != "MINTC"@.len());
        reveal_strlit("JUNCTIONK");
        assert("CURBOPEN"@.len() != "JUNCTIONK"@.len());
        reveal_strlit("JK");
        assert("CURBOPEN"@.len() != "JK"@.len());
        reveal_strlit("VMIN");
        assert("CURBOPEN"@.len() != "VMIN"@.len());
        reveal_strlit("VMAX");
        assert("CURBOPEN"@.len() != "VMAX"@.len());
        reveal_strlit("MAXFULL");
        assert("CURBOPEN"@.len() != "MAXFULL"@.len());
        reveal_strlit("PFULL");
        assert("CURBOPEN"@.len() != "PFULL"@.len());
        reveal_strlit("CURBLEN");
        assert("CURBOPEN"@.len() != "CURBLEN"@.len());
    }
    assert(real_param_of("INLETLEN"@) == Some(RealParam::GrateLength)) by {
        reveal_strlit("INLETLEN");
        reveal_strlit("MINTC");
        assert("INLETLEN"@.len() != "MINTC"@.len());
        reveal_strlit("JUNCTIONK");
        assert("INLETLEN"@.len() != "JUNCTIONK"@.len());
        reveal_strlit("JK");
        assert("INLETLEN"@.len() != "JK"@.len());
        reveal_strlit("VMIN");
        assert("INLETLEN"@.len() != "VMIN"@.len());
        reveal_strlit("VMAX");
        assert("INLETLEN"@.len() != "VMAX"@.len());
        reveal_strlit("MAXFULL");
        assert("INLETLEN"@.len() != "MAXFULL"@.len());
        reveal_strlit("PFULL");
        assert("INLETLEN"@.len() != "PFULL"@.len());
        reveal_strlit("CURBLEN");
        assert("INLETLEN"@.len() != "CURBLEN"@.len());
        reveal_strlit("CURBOPEN");
        assert("INLETLEN"@[0] != "CURBOPEN"@[0]);
    }
    assert(real_param_of("GRATE"@) == Some(RealParam::GrateLength)) by {
        reveal_strlit("GRATE");
        reveal_strlit("MINTC");
        assert("GRATE"@[0] != "MINTC"@[0]);
        reveal_strlit("JUNCTIONK");
        assert("GRATE"@.len() != "JUNCTIONK"@.len());
        reveal_strlit("JK");
        assert("GRATE"@.len() != "JK"@.len());
        reveal_strlit("VMIN");
        assert("GRATE"@.len() != "VMIN"@.len());
        reveal_strlit("VMAX");
        assert("GRATE"@.len() != "VMAX"@.len());
        reveal_strlit("MAXFULL");
        assert("GRATE"@.len() != "MAXFULL"@.len());
        reveal_strlit("PFULL");
        assert("GRATE"@[0] != "PFULL"@[0]);
        reveal_strlit("CURBLEN");
        assert("GRATE"@.len() != "CURBLEN"@.len());
        reveal_strlit("CURBOPEN");
        assert("GRATE"@.len() != "CURBOPEN"@.len());
        reveal_strlit("INLETLEN");
        assert("GRATE"@.len() != "INLETLEN"@.len());
    }
    assert(real_param_of("INLETD"@) == Some(RealParam::FlowDepth)) by {
        reveal_strlit("INLETD");
        reveal_strlit("MINTC");
        assert("INLETD"@.len() != "MINTC"@.len());
        reveal_strlit("JUNCTIONK");
        assert("INLETD"@.len() != "JUNCTIONK"@.len());
        reveal_strlit("JK");
        assert("INLETD"@.len() != "JK"@.len());
        reveal_strlit("VMIN");
        assert("INLETD"@.len() != "VMIN"@.len());
        reveal_strlit("VMAX");
        assert("INLETD"@.len() != "VMAX"@.len());
        reveal_strlit("MAXFULL");
        assert("INLETD"@.len() != "MAXFULL"@.len());
        reveal_strlit("PFULL");
        assert("INLETD"@.len() != "PFULL"@.len());
        reveal_strlit("CURBLEN");
        assert("INLETD"@.len() != "CURBLEN"@.len());
        reveal_strlit("CURBOPEN");
        assert("INLETD"@.len() != "CURBOPEN"@.len());
        reveal_strlit("INLETLEN");
        assert("INLETD"@.len() != "INLETLEN"@.len());
        reveal_strlit("GRATE");
        assert("INLETD"@.len() != "GRATE"@.len());
    }
    assert(real_param_of("CURBDEPTH"@) == Some(RealParam::FlowDepth)) by {
        reveal_strlit("CURBDEPTH");
        reveal_strlit("MINTC");
        assert("CURBDEPTH"@.len() != "MINTC"@.len());
        reveal_strlit("JUNCTIONK");
        assert("CURBDEPTH"@[0] != "JUNCTIONK"@[0]);
        reveal_strlit("JK");
        assert("CURBDEPTH"@.len() != "JK"@.len());
        reveal_strlit("VMIN");
        assert("CURBDEPTH"@.len() != "VMIN"@.len());
        reveal_strlit("VMAX");
        assert("CURBDEPTH"@.len() != "VMAX"@.len());
        reveal_strlit("MAXFULL");
        assert("CURBDEPTH"@.len() != "MAXFULL"@.len());
        reveal_strlit("PFULL");
        assert("CURBDEPTH"@.len() != "PFULL"@.len());
        reveal_strlit("CURBLEN");
        assert("CURBDEPTH"@.len() != "CURBLEN"@.len());
        reveal_strlit("CURBOPEN");
        assert("CURBDEPTH"@.len() != "CURBOPEN"@.len());
        reveal_strlit("INLETLEN");
        assert("CURBDEPTH"@.len() != "INLETLEN"@.len());
        reveal_strlit("GRATE");
        assert("CURBDEPTH"@.len() != "GRATE"@.len());
        reveal_strlit("INLETD");
        assert("CURBDEPTH"@.len() != "INLETD"@.len());
    }
    assert(real_param_of("INLETS"@) == Some(RealParam::GutterSlope)) by {
        reveal_strlit("INLETS");
        reveal_strlit("MINTC");
        assert("INLETS"@.len() != "MINTC"@.len());
        reveal_strlit("JUNCTIONK");
        assert("INLETS"@.len() != "JUNCTIONK"@.len());
        reveal_strlit("JK");
        assert("INLETS"@.len() != "JK"@.len());
        reveal_strlit("VMIN");
        assert("INLETS"@.len() != "VMIN"@.len());
        reveal_strlit("VMAX");
        assert("INLETS"@.len() != "VMAX"@.len());
        reveal_strlit("MAXFULL");
        assert("INLETS"@.len() != "MAXFULL"@.len());
        reveal_strlit("PFULL");
        assert("INLETS"@.len() != "PFULL"@.len());
        reveal_strlit("CURBLEN");
        assert("INLETS"@.len() != "CURBLEN"@.len());
        reveal_strlit("CURBOPEN");
        assert("INLETS"@.len() != "CURBOPEN"@.len());
        reveal_strlit("INLETLEN");
        assert("INLETS"@.len() != "INLETLEN"@.len());
        reveal_strlit("GRATE");
        assert("INLETS"@.len() != "GRATE"@.len());
        reveal_strlit("INLETD");
        assert("INLETS"@[5] != "INLETD"@[5]);
        reveal_strlit("CURBDEPTH");
        assert("INLETS"@.len() != "CURBDEPTH"@.len());
    }
    assert(real_param_of("GUTTERS"@) == Some(RealParam::GutterSlope)) by {
        reveal_strlit("GUTTERS");
        reveal_strlit("MINTC");
        assert("GUTTERS"@.len() != "MINTC"@.len());
        reveal_strlit("JUNCTIONK");
        assert("GUTTERS"@.len() != "JUNCTIONK"@.len());
        reveal_strlit("JK");
        assert("GUTTERS"@.len() != "JK"@.len());
        reveal_strlit("VMIN");
        assert("GUTTERS"@.len() != "VMIN"@.len());
        reveal_strlit("VMAX");
        assert("GUTTERS"@.len() != "VMAX"@.len());
        reveal_strlit("MAXFULL");
        assert("GUTTERS"@[0] != "MAXFULL"@[0]);
        reveal_strlit("PFULL");
        assert("GUTTERS"@.len() != "PFULL"@.len());
        reveal_strlit("CURBLEN");
        assert("GUTTERS"@[0] != "CURBLEN"@[0]);
        reveal_strlit("CURBOPEN");
        assert("GUTTERS"@.len() != "CURBOPEN"@.len());
        reveal_strlit("INLETLEN");
        assert("GUTTERS"@.len() != "INLETLEN"@.len());
        reveal_strlit("GRATE");
        assert("GUTTERS"@.len() != "GRATE"@.len());
        reveal_strlit("INLETD");
        assert("GUTTERS"@.len() != "INLETD"@.len());
        reveal_strlit("CURBDEPTH");
        assert("GUTTERS"@.len() != "CURBDEPTH"@.len());
        reveal_strlit("INLETS");
        assert("GUTTERS"@.len() != "INLETS"@.len());
    }
}

proof fn lemma_real_key_not_other(key: Seq<char>)
    ensures
        real_param_of(key) is Some ==> !is_rp_key(key) && key != "IDF"@ && !is_tailwater_key(key),
{
    reveal_strlit("RP");
    reveal_strlit("RETURN");
    reveal_strlit("IDF");
    reveal_strlit("TAILWATER");
    reveal_strlit("TW");
    reveal_strlit("MINTC");
    reveal_strlit("JUNCTIONK");
    reveal_strlit("JK");
    reveal_strlit("VMIN");
    reveal_strlit("VMAX");
    reveal_strlit("MAXFULL");
    reveal_strlit("PFULL");
    reveal_strlit("CURBLEN");
    reveal_strlit("CURBOPEN");
    reveal_strlit("INLETLEN");
    reveal_strlit("GRATE");
    reveal_strlit("INLETD");
    reveal_strlit("CURBDEPTH");
    reveal_strlit("INLETS");
    reveal_strlit("GUTTERS");
    if real_param_of(key) is Some {
        if key.len() == 2 {
            assert(key == "JK"@);
            assert(key[0] != "RP"@[0]);
            assert(key[1] != "TW"@[1]);
        } else if key.len() == 6 {
            assert(key[0] != "RETURN"@[0]);
        } else if key.len() == 9 {
            assert(key[0] != "TAILWATER"@[0]);
        }
    }
}

/// The message confirming a new design return period.
pub fn return_period_message(rp: u32) -> (r: String)
    ensures
        r@ == "Design return period set to "@ + dec(rp as nat) + " yr."@,
{
    let mut v = chars_of("Design return period set to ");
    let d = decimal(rp as u64);
    append(&mut v, &d);
    append_str(&mut v, " yr.");
    string_of(&v)
}

/// The message refusing a word that does not read as a number.
pub fn not_a_number_message(word: &str) -> (r: String)
    ensures
        r@ == "`"@ + word@ + "` is not a number"@,
{
    let mut v = chars_of("`");
    append_str(&mut v, word);
    append_str(&mut v, "` is not a number");
    string_of(&v)
}

} // verus!
