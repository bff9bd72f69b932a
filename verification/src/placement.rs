//! Argument handling of coordinate- and handle-based structure and pipe
//! placement (`SS_INLET x,y ...`, `SS_PIPE from to ...`).
//!
//! Reading the reals themselves (coordinates, elevations, diameters) is the
//! caller's: it tells which tokens read as numbers.

use vstd::prelude::*;

use crate::text::{
    append_str, chars_of, contains_char, is_digit, is_ws, parse_u64, parse_unsigned, string_of, trim,
    trim_chars, trim_end, trim_start,
};

verus! {

pub fn usage_inlet() -> (r: &'static str)
    ensures
        r@ == "SS_INLET <x>,<y> [invert] [rim] [area] [C]  \u{2014} e.g. SS_INLET 100,200 104 110 1.0 0.7"@,
{
    "SS_INLET <x>,<y> [invert] [rim] [area] [C]  \u{2014} e.g. SS_INLET 100,200 104 110 1.0 0.7"
}

pub fn usage_junction() -> (r: &'static str)
    ensures
        r@ == "SS_JUNCTION <x>,<y> [invert] [rim] [area] [C]"@,
{
    "SS_JUNCTION <x>,<y> [invert] [rim] [area] [C]"
}

pub fn usage_outfall() -> (r: &'static str)
    ensures
        r@ == "SS_OUTFALL <x>,<y> [invert] [rim]  \u{2014} e.g. SS_OUTFALL 500,0 100 106"@,
{
    "SS_OUTFALL <x>,<y> [invert] [rim]  \u{2014} e.g. SS_OUTFALL 500,0 100 106"
}

pub fn usage_pipe_handles() -> (r: &'static str)
    ensures
        r@ == "SS_PIPE <from_handle> <to_handle> [diameter] [n]  \u{2014} e.g. SS_PIPE 1 2 1.5 0.013"@,
{
    "SS_PIPE <from_handle> <to_handle> [diameter] [n]  \u{2014} e.g. SS_PIPE 1 2 1.5 0.013"
}

pub fn usage_pipe_coords() -> (r: &'static str)
    ensures
        r@ == "SS_PIPE <x1>,<y1> <x2>,<y2> [diameter] [n]  \u{2014} snaps to nearest structures"@,
{
    "SS_PIPE <x1>,<y1> <x2>,<y2> [diameter] [n]  \u{2014} snaps to nearest structures"
}

/// An entity handle typed as a decimal number (surrounding whitespace allowed).
pub open spec fn handle_of_text(s: Seq<char>) -> Option<nat> {
    parse_unsigned(trim(s), u64::MAX as nat)
}

pub fn parse_handle(s: &str) -> (r: Option<u64>)
    ensures
        match r {
            Some(h) => handle_of_text(s@) == Some(h as nat),
            None => handle_of_text(s@) is None,
        },
{
    let v = chars_of(s);
    let t = trim_chars(&v);
    parse_u64(&t)
}

/// `SS_PIPE` arguments are coordinates, not handles: either of the first two
/// tokens holds a comma, or the first four all read as numbers
/// (`numeric[i]` tells whether token `i` does) and the first two are not both
/// entity handles, so that `SS_PIPE 1 2 1.5 0.013` joins handles 1 and 2.
pub open spec fn coordinate_mode(tokens: Seq<Seq<char>>, numeric: Seq<bool>) -> bool {
    if tokens.len() < 2 {
        false
    } else if tokens[0].contains(',') || tokens[1].contains(',') {
        true
    } else {
        &&& tokens.len() >= 4
        &&& numeric[0] && numeric[1] && numeric[2] && numeric[3]
        &&& !(handle_of_text(tokens[0]) is Some && handle_of_text(tokens[1]) is Some)
    }
}

pub fn is_coordinate_mode(tokens: &Vec<String>, numeric: &Vec<bool>) -> (r: bool)
    requires
        numeric.len() == tokens.len(),
    ensures
        r == coordinate_mode(tokens@.map_values(|t: String| t@), numeric@),
{
    if tokens.len() < 2 {
        return false;
    }
    let a = chars_of(tokens[0].as_str());
    let b = chars_of(tokens[1].as_str());
    if contains_char(&a, ',') || contains_char(&b, ',') {
        return true;
    }
    if tokens.len() < 4 || !(numeric[0] && numeric[1] && numeric[2] && numeric[3]) {
        return false;
    }
    !(parse_handle(tokens[0].as_str()).is_some() && parse_handle(tokens[1].as_str()).is_some())
}

/// Where the optional numbers of `SS_INLET x,y ...` start: after one token
/// when the first holds `x,y`, else after two.
pub fn structure_numbers_start(first_token: &str) -> (r: usize)
    ensures
        r == (if first_token@.contains(',') { 1usize } else { 2usize }),
{
    let a = chars_of(first_token);
    if contains_char(&a, ',') {
        1
    } else {
        2
    }
}

/// How the arguments of `SS_PIPE` are to be read.
#[derive(Debug, PartialEq, Eq, Structural)]
pub enum PipeArgs {
    /// Coordinates written with commas: the start point is the first token
    /// (`x,y`) or the first two (`x y,`...); the end point is read from the
    /// tokens `1..end_to`; the diameter and n follow from `numbers_from` on.
    CommaPoints { end_to: usize, numbers_from: usize },
    /// Four plain numbers `x0 y0 x1 y1`; the diameter and n follow them.
    FourNumbers,
    /// Two entity handles; the diameter and n follow them.
    Handles { from: u64, to: u64 },
}

pub open spec fn pipe_arg_count_message() -> Seq<char> {
    "Expected two handles or two coordinate pairs. "@
        + "SS_PIPE <from_handle> <to_handle> [diameter] [n]  \u{2014} e.g. SS_PIPE 1 2 1.5 0.013"@
        + " or "@
        + "SS_PIPE <x1>,<y1> <x2>,<y2> [diameter] [n]  \u{2014} snaps to nearest structures"@
}

/// The reading of the `SS_PIPE` argument tokens (`numeric[i]` tells whether
/// token `i` reads as a number), or the message it is refused with.
pub open spec fn pipe_args_of(tokens: Seq<Seq<char>>, numeric: Seq<bool>) -> Result<PipeArgs, Seq<char>> {
    if tokens.len() < 2 {
        Err(pipe_arg_count_message())
    } else if coordinate_mode(tokens, numeric) {
        if tokens[0].contains(',') || tokens[1].contains(',') {
            Ok(
                PipeArgs::CommaPoints {
                    end_to: if tokens[1].contains(',') { 2usize } else { 3usize },
                    numbers_from: if tokens[0].contains(',') { 2usize } else { 3usize },
                },
            )
        } else {
            Ok(PipeArgs::FourNumbers)
        }
    } else {
        match handle_of_text(tokens[0]) {
            None => Err("Invalid from_handle"@),
            Some(a) => match handle_of_text(tokens[1]) {
                None => Err("Invalid to_handle"@),
                Some(b) => Ok(PipeArgs::Handles { from: a as u64, to: b as u64 }),
            },
        }
    }
}

/// Decide how the arguments of `SS_PIPE` are read: by coordinates (with
/// commas, or four plain numbers) or by two handles.
pub fn pipe_args(tokens: &Vec<String>, numeric: &Vec<bool>) -> (r: Result<PipeArgs, String>)
    requires
        numeric.len() == tokens.len(),
    ensures
        match (r, pipe_args_of(tokens@.map_values(|t: String| t@), numeric@)) {
            (Ok(a), Ok(b)) => a == b,
            (Err(m), Err(n)) => m@ == n,
            _ => false,
        },
{
    let ghost toks = tokens@.map_values(|t: String| t@);
    if tokens.len() < 2 {
        let mut m: Vec<char> = Vec::new();
        append_str(&mut m, "Expected two handles or two coordinate pairs. ");
        append_str(&mut m, usage_pipe_handles());
        append_str(&mut m, " or ");
        append_str(&mut m, usage_pipe_coords());
        return Err(string_of(&m));
    }
    assert(toks[0] == tokens@[0]@ && toks[1] == tokens@[1]@);
    let a = chars_of(tokens[0].as_str());
    let b = chars_of(tokens[1].as_str());
    let first_comma = contains_char(&a, ',');
    let second_comma = contains_char(&b, ',');
    if is_coordinate_mode(tokens, numeric) {
        if first_comma || second_comma {
            let end_to: usize = if second_comma { 2 } else { 3 };
            let numbers_from: usize = if first_comma { 2 } else { 3 };
            Ok(PipeArgs::CommaPoints { end_to, numbers_from })
        } else {
            Ok(PipeArgs::FourNumbers)
        }
    } else {
        match parse_handle(tokens[0].as_str()) {
            None => Err("Invalid from_handle".to_string()),
            Some(from) => match parse_handle(tokens[1].as_str()) {
                None => Err("Invalid to_handle".to_string()),
                Some(to) => Ok(PipeArgs::Handles { from, to }),
            },
        }
    }
}


proof fn lemma_trim_start_keeps(s: Seq<char>, c: char)
    requires
        s.contains(c),
        !is_ws(c),
    ensures
        trim_start(s).contains(c),
    decreases s.len(),
{
    if s.len() > 0 && is_ws(s[0]) {
        let k = choose|k: int| 0 <= k < s.len() && s[k] == c;
        assert(s.drop_first()[k - 1] == c);
        lemma_trim_start_keeps(s.drop_first(), c);
    }
}

proof fn lemma_trim_end_keeps(s: Seq<char>, c: char)
    requires
        s.contains(c),
        !is_ws(c),
    ensures
        trim_end(s).contains(c),
    decreases s.len(),
{
    if s.len() > 0 && is_ws(s.last()) {
        let k = choose|k: int| 0 <= k < s.len() && s[k] == c;
        assert(s.drop_last()[k] == c);
        lemma_trim_end_keeps(s.drop_last(), c);
    }
}

proof fn lemma_handle_has_no_comma(t: Seq<char>)
    requires
        handle_of_text(t) is Some,
    ensures
        !t.contains(','),
{
    if t.contains(',') {
        lemma_trim_start_keeps(t, ',');
        lemma_trim_end_keeps(trim_start(t), ',');
        let s = trim(t);
        let k = choose|k: int| 0 <= k < s.len() && s[k] == ',';
        if s.len() > 0 && s[0] == '+' {
            assert(!is_digit(s.drop_first()[k - 1]));
        } else {
            assert(!is_digit(s[k]));
        }
    }
}

/// Two entity handles as the first two arguments of `SS_PIPE` are read as
/// those handles, whatever follows them (`SS_PIPE <from> <to> [dia] [n]`).
pub proof fn law_pipe_handle_form(tokens: Seq<Seq<char>>, numeric: Seq<bool>, from: nat, to: nat)
    requires
        tokens.len() >= 2,
        numeric.len() == tokens.len(),
        handle_of_text(tokens[0]) == Some(from),
        handle_of_text(tokens[1]) == Some(to),
    ensures
        pipe_args_of(tokens, numeric) == Ok::<PipeArgs, Seq<char>>(
            PipeArgs::Handles { from: from as u64, to: to as u64 },
        ),
{
    lemma_handle_has_no_comma(tokens[0]);
    lemma_handle_has_no_comma(tokens[1]);
}

} // verus!
