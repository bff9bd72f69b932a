//! The HTML report: its file name under `Documents\StormSewer`, and the page.

use vstd::prelude::*;

use crate::text::{append, append_str, chars_of, dec, decimal, string_of, trim, trim_str};

verus! {

/// Characters that file names may not hold.
pub open spec fn is_bad_filename_char(c: char) -> bool {
    c == '<' || c == '>' || c == ':' || c == '"' || c == '/' || c == '\\' || c == '|' || c == '?'
        || c == '*'
}

/// The drawing label made safe as part of a file name: trimmed, each
/// forbidden character replaced by `_`, `drawing` when nothing is left.
pub open spec fn safe_filename(name: Seq<char>) -> Seq<char> {
    let t = trim(name);
    if t.len() == 0 {
        "drawing"@
    } else {
        t.map_values(|c: char| if is_bad_filename_char(c) { '_' } else { c })
    }
}

pub fn sanitize_filename(name: &str) -> (r: String)
    ensures
        r@ == safe_filename(name@),
{
    let t = trim_str(name);
    if t.len() == 0 {
        return "drawing".to_string();
    }
    let mut out: Vec<char> = Vec::new();
    let mut i: usize = 0;
    while i < t.len()
        invariant
            i <= t.len(),
            out@ == t@.take(i as int).map_values(
                |c: char| if is_bad_filename_char(c) { '_' } else { c },
            ),
        decreases t.len() - i,
    {
        let ch = t[i];
        let bad = ch == '<' || ch == '>' || ch == ':' || ch == '"' || ch == '/' || ch == '\\'
            || ch == '|' || ch == '?' || ch == '*';
        if bad {
            out.push('_');
        } else {
            out.push(ch);
        }
        i = i + 1;
        assert(out@ =~= t@.take(i as int).map_values(
            |c: char| if is_bad_filename_char(c) { '_' } else { c },
        ));
    }
    assert(t@.take(t.len() as int) =~= t@);
    string_of(&out)
}

/// The file name of a report on drawing `label` written at `secs` (seconds
/// since the epoch): `report-<label>-<secs>.html`.
pub open spec fn report_file_name_text(label: Seq<char>, secs: nat) -> Seq<char> {
    "report-"@ + safe_filename(label) + "-"@ + dec(secs) + ".html"@
}

pub fn report_file_name(label: &str, secs: u64) -> (r: String)
    ensures
        r@ == report_file_name_text(label@, secs as nat),
{
    let safe = sanitize_filename(label);
    let mut v: Vec<char> = Vec::new();
    append_str(&mut v, "report-");
    append_str(&mut v, safe.as_str());
    append_str(&mut v, "-");
    let d = decimal(secs);
    append(&mut v, &d);
    append_str(&mut v, ".html");
    string_of(&v)
}

/// The time stamp put in report file names: the seconds since the epoch.
pub fn stamp(secs: u64) -> (r: String)
    ensures
        r@ == dec(secs as nat),
{
    let d = decimal(secs);
    string_of(&d)
}

/// The HTML text of one character: `&`, `<`, `>` and `"` as entities.
pub open spec fn escaped_char(c: char) -> Seq<char> {
    if c == '&' {
        "&amp;"@
    } else if c == '<' {
        "&lt;"@
    } else if c == '>' {
        "&gt;"@
    } else if c == '"' {
        "&quot;"@
    } else {
        seq![c]
    }
}

/// `s` as HTML text.
pub open spec fn escaped(s: Seq<char>) -> Seq<char>
    decreases s.len(),
{
    if s.len() == 0 {
        seq![]
    } else {
        escaped(s.drop_last()) + escaped_char(s.last())
    }
}

fn push_escaped(v: &mut Vec<char>, s: &str)
    ensures
        final(v)@ == old(v)@ + escaped(s@),
{
    let ghost start = v@;
    let t = chars_of(s);
    let mut i: usize = 0;
    assert(t@.take(0) =~= Seq::<char>::empty());
    assert(v@ =~= start + escaped(t@.take(0)));
    while i < t.len()
        invariant
            i <= t.len(),
            t@ == s@,
            v@ == start + escaped(t@.take(i as int)),
        decreases t.len() - i,
    {
        let c = t[i];
        let ghost pre = v@;
        if c == '&' {
            append_str(v, "&amp;");
        } else if c == '<' {
            append_str(v, "&lt;");
        } else if c == '>' {
            append_str(v, "&gt;");
        } else if c == '"' {
            append_str(v, "&quot;");
        } else {
            v.push(c);
        }
        assert(v@ =~= pre + escaped_char(c));
        assert(t@.take(i + 1).drop_last() =~= t@.take(i as int));
        i = i + 1;
        assert(v@ =~= start + escaped(t@.take(i as int)));
    }
    assert(t@.take(t.len() as int) =~= t@);
}

/// A stand-alone HTML page showing the plain-text report `report` of
/// drawing `label`, laid out as on the command line.
pub open spec fn report_page_text(label: Seq<char>, report: Seq<char>) -> Seq<char> {
    "<!DOCTYPE html>\n<html><head><meta charset=\"utf-8\"><title>Storm Sewer report: "@
        + escaped(label) + "</title></head>\n<body><h1>Storm Sewer report: "@ + escaped(label)
        + "</h1>\n<pre>"@ + escaped(report) + "</pre>\n</body></html>\n"@
}

pub fn report_page(label: &str, report: &str) -> (r: String)
    ensures
        r@ == report_page_text(label@, report@),
{
    let mut v = chars_of(
        "<!DOCTYPE html>\n<html><head><meta charset=\"utf-8\"><title>Storm Sewer report: ",
    );
    push_escaped(&mut v, label);
    append_str(&mut v, "</title></head>\n<body><h1>Storm Sewer report: ");
    push_escaped(&mut v, label);
    append_str(&mut v, "</h1>\n<pre>");
    push_escaped(&mut v, report);
    append_str(&mut v, "</pre>\n</body></html>\n");
    string_of(&v)
}

/// Law: the safe name is never empty and holds no character that file
/// names may not hold.
pub proof fn law_safe_filename_clean(name: Seq<char>)
    ensures
        safe_filename(name).len() > 0,
        forall|i: int|
            0 <= i < safe_filename(name).len() ==> !is_bad_filename_char(
                #[trigger] safe_filename(name)[i],
            ),
{
    reveal_strlit("drawing");
}

} // verus!
