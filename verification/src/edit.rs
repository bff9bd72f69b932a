//! `SS_EDIT`: reading `<handle> <field> <value> [...]` and naming the fields.

use vstd::prelude::*;

use crate::placement::{handle_of_text, parse_handle};
use crate::text::{append_str, chars_of, split_words, string_of, words};

verus! {

pub open spec fn usage_text() -> Seq<char> {
    "SS_EDIT <handle> <field> <value> [...]  \u{2014} fields: invert, rim, area, c, tc (structures); diameter, n, from, to (pipes)"@
}

pub fn usage() -> (r: &'static str)
    ensures
        r@ == usage_text(),
        r@ == "SS_EDIT <handle> <field> <value> [...]  \u{2014} fields: invert, rim, area, c, tc (structures); diameter, n, from, to (pipes)"@,
{
    "SS_EDIT <handle> <field> <value> [...]  \u{2014} fields: invert, rim, area, c, tc (structures); diameter, n, from, to (pipes)"
}

/// `char::to_ascii_lowercase`.
pub open spec fn lower(c: char) -> char {
    if 'A' <= c && c <= 'Z' {
        ((c as u32) + 32) as char
    } else {
        c
    }
}

pub open spec fn lowercase(s: Seq<char>) -> Seq<char> {
    s.map_values(|c: char| lower(c))
}

pub fn to_ascii_lowercase(s: &Vec<char>) -> (r: Vec<char>)
    ensures
        r@ == lowercase(s@),
{
    let mut r: Vec<char> = Vec::new();
    let mut i: usize = 0;
    while i < s.len()
        invariant
            i <= s.len(),
            r@ == lowercase(s@.take(i as int)),
        decreases s.len() - i,
    {
        let c = s[i];
        let l = if 'A' <= c && c <= 'Z' {
            ((c as u32 + 32) as u8) as char
        } else {
            c
        };
        assert(l == lower(c)) by {
            if 'A' <= c && c <= 'Z' {
                assert(((c as u32 + 32) as u8) as char == ((c as u32) + 32) as char);
            }
        }
        r.push(l);
        i = i + 1;
        assert(r@ =~= lowercase(s@.take(i as int)));
    }
    assert(s@.take(s.len() as int) =~= s@);
    r
}

/// The `(field, value)` pairs of words `w` after the handle: field names
/// lower-cased, a trailing unpaired word ignored.
pub open spec fn field_pairs(w: Seq<Seq<char>>) -> Seq<(Seq<char>, Seq<char>)> {
    Seq::new(((w.len() - 1) / 2) as nat, |k: int| (lowercase(w[1 + 2 * k]), w[2 + 2 * k]))
}

/// A handle and the field changes asked for.
pub struct EditRequest {
    pub handle: u64,
    pub changes: Vec<(String, String)>,
}

pub open spec fn pairs_text(v: Seq<(String, String)>) -> Seq<(Seq<char>, Seq<char>)> {
    v.map_values(|p: (String, String)| (p.0@, p.1@))
}

/// `SS_EDIT` arguments: at least three words, the first a handle.
pub fn parse_edit_args(args: &str) -> (r: Result<EditRequest, String>)
    ensures
        ({
            let w = words(args@);
            match r {
                Ok(req) => {
                    &&& w.len() >= 3
                    &&& handle_of_text(w[0]) == Some(req.handle as nat)
                    &&& pairs_text(req.changes@) == field_pairs(w)
                },
                Err(e) => if w.len() < 3 {
                    e@ == usage_text()
                } else {
                    handle_of_text(w[0]) is None && e@ == "Invalid entity handle"@
                },
            }
        }),
{
    let a = chars_of(args);
    let t = split_words(&a);
    if t.len() < 3 {
        return Err(usage().to_string());
    }
    assert(t@[0]@ == words(args@)[0]);
    let first = string_of(&t[0]);
    let handle = match parse_handle(first.as_str()) {
        Some(h) => h,
        None => {
            return Err("Invalid entity handle".to_string());
        },
    };
    let ghost w = words(args@);
    let mut changes: Vec<(String, String)> = Vec::new();
    let mut i: usize = 1;
    while i < t.len() - 1
        invariant
            crate::text::views(t@) == w,
            1 <= i,
            i == 1 + 2 * changes.len(),
            i <= t.len(),
            t.len() >= 3,
            pairs_text(changes@) == field_pairs(w).take(changes.len() as int),
            changes.len() <= field_pairs(w).len(),
        decreases t.len() - i,
    {
        let field = to_ascii_lowercase(&t[i]);
        let value = string_of(&t[i + 1]);
        assert(t@[i as int]@ == w[i as int]);
        assert(t@[i + 1]@ == w[i + 1]);
        changes.push((string_of(&field), value));
        i = i + 2;
        assert(pairs_text(changes@) =~= field_pairs(w).take(changes.len() as int));
    }
    assert(field_pairs(w).take(changes.len() as int) =~= field_pairs(w));
    Ok(EditRequest { handle, changes })
}

/// The fields that `SS_EDIT` can set.
#[derive(Debug, Clone, Copy, PartialEq, Eq, Structural)]
pub enum EditField {
    Invert,
    Rim,
    Area,
    C,
    Tc,
    Diameter,
    N,
    From,
    To,
}

/// The structure field that `name` (lower-cased) names.
pub open spec fn structure_field_of(name: Seq<char>) -> Option<EditField> {
    if name == "invert"@ {
        Some(EditField::Invert)
    } else if name == "rim"@ {
        Some(EditField::Rim)
    } else if name == "area"@ {
        Some(EditField::Area)
    } else if name == "c"@ {
        Some(EditField::C)
    } else if name == "tc"@ || name == "tc_inlet"@ {
        Some(EditField::Tc)
    } else {
        None
    }
}

/// The pipe field that `name` (lower-cased) names.
pub open spec fn pipe_field_of(name: Seq<char>) -> Option<EditField> {
    if name == "diameter"@ || name == "dia"@ {
        Some(EditField::Diameter)
    } else if name == "n"@ || name == "mannings"@ {
        Some(EditField::N)
    } else if name == "from"@ {
        Some(EditField::From)
    } else if name == "to"@ {
        Some(EditField::To)
    } else {
        None
    }
}

pub fn structure_field(name: &str) -> (r: Result<EditField, String>)
    ensures
        match r {
            Ok(f) => structure_field_of(name@) == Some(f),
            Err(e) => structure_field_of(name@) is None && e@ == "Unknown structure field: "@ + name@,
        },
{
    let n = chars_of(name);
    if crate::text::chars_eq_str(&n, "invert") {
        Ok(EditField::Invert)
    } else if crate::text::chars_eq_str(&n, "rim") {
        Ok(EditField::Rim)
    } else if crate::text::chars_eq_str(&n, "area") {
        Ok(EditField::Area)
    } else if crate::text::chars_eq_str(&n, "c") {
        Ok(EditField::C)
    } else if crate::text::chars_eq_str(&n, "tc") || crate::text::chars_eq_str(&n, "tc_inlet") {
        Ok(EditField::Tc)
    } else {
        Err(crate::text::concat("Unknown structure field: ", name))
    }
}

pub fn pipe_field(name: &str) -> (r: Result<EditField, String>)
    ensures
        match r {
            Ok(f) => pipe_field_of(name@) == Some(f),
            Err(e) => pipe_field_of(name@) is None && e@ == "Unknown pipe field: "@ + name@,
        },
{
    let n = chars_of(name);
    if crate::text::chars_eq_str(&n, "diameter") || crate::text::chars_eq_str(&n, "dia") {
        Ok(EditField::Diameter)
    } else if crate::text::chars_eq_str(&n, "n") || crate::text::chars_eq_str(&n, "mannings") {
        Ok(EditField::N)
    } else if crate::text::chars_eq_str(&n, "from") {
        Ok(EditField::From)
    } else if crate::text::chars_eq_str(&n, "to") {
        Ok(EditField::To)
    } else {
        Err(crate::text::concat("Unknown pipe field: ", name))
    }
}

/// How a field is named in the message about a value that does not read.
pub open spec fn field_label(f: EditField) -> Seq<char> {
    match f {
        EditField::Invert => "invert"@,
        EditField::Rim => "rim"@,
        EditField::Area => "area"@,
        EditField::C => "C"@,
        EditField::Tc => "tc"@,
        EditField::Diameter => "diameter"@,
        EditField::N => "n"@,
        EditField::From => "from handle"@,
        EditField::To => "to handle"@,
    }
}


proof fn lemma_lowercase_labels()
    ensures
        lowercase(field_label(EditField::Invert)) == "invert"@,
        lowercase(field_label(EditField::Rim)) == "rim"@,
        lowercase(field_label(EditField::Area)) == "area"@,
        lowercase(field_label(EditField::C)) == "c"@,
        lowercase(field_label(EditField::Tc)) == "tc"@,
{
    reveal_strlit("invert");
    reveal_strlit("rim");
    reveal_strlit("area");
    reveal_strlit("C");
    reveal_strlit("c");
    reveal_strlit("tc");
    assert(lowercase("invert"@) =~= "invert"@);
    assert(lowercase("rim"@) =~= "rim"@);
    assert(lowercase("area"@) =~= "area"@);
    assert(lowercase("C"@) =~= "c"@);
    assert(lowercase("tc"@) =~= "tc"@);
}

proof fn lemma_structure_names()
    ensures
        structure_field_of("invert"@) == Some(EditField::Invert),
        structure_field_of("rim"@) == Some(EditField::Rim),
        structure_field_of("area"@) == Some(EditField::Area),
        structure_field_of("c"@) == Some(EditField::C),
        structure_field_of("tc"@) == Some(EditField::Tc),
{
    reveal_strlit("invert");
    reveal_strlit("rim");
    reveal_strlit("area");
    reveal_strlit("c");
    reveal_strlit("tc");
    assert("rim"@.len() != "invert"@.len());
    assert("area"@.len() != "invert"@.len() && "area"@.len() != "rim"@.len());
    assert("c"@.len() != "invert"@.len() && "c"@.len() != "rim"@.len() && "c"@.len() != "area"@.len());
    assert("tc"@.len() != "invert"@.len() && "tc"@.len() != "rim"@.len() && "tc"@.len() != "area"@.len()
        && "tc"@.len() != "c"@.len());
}

proof fn lemma_pipe_names()
    ensures
        pipe_field_of("diameter"@) == Some(EditField::Diameter),
        pipe_field_of("n"@) == Some(EditField::N),
        pipe_field_of("from"@) == Some(EditField::From),
        pipe_field_of("to"@) == Some(EditField::To),
{
    reveal_strlit("diameter");
    reveal_strlit("dia");
    reveal_strlit("n");
    reveal_strlit("mannings");
    reveal_strlit("from");
    reveal_strlit("to");
    assert("n"@.len() != "diameter"@.len() && "n"@.len() != "dia"@.len());
    assert("from"@.len() != "diameter"@.len() && "from"@.len() != "dia"@.len() && "from"@.len() != "n"@.len()
        && "from"@.len() != "mannings"@.len());
    assert("to"@.len() != "diameter"@.len() && "to"@.len() != "dia"@.len() && "to"@.len() != "n"@.len()
        && "to"@.len() != "mannings"@.len() && "to"@.len() != "from"@.len());
}

/// Law: an `SS_EDIT` field name selects the field of that name. A structure
/// field is selected by its own name (lower-cased), or `tc` by its alias
/// `tc_inlet`; each of `invert`, `rim`, `area`, `c`, `tc` selects its own
/// field. A pipe field is selected by its own name, `diameter` also by
/// `dia` and `n` by `mannings`, `from` and `to` by the first word of their
/// labels; each of `diameter`, `n`, `from`, `to` selects its own field. So
/// no two names other than aliases select the same field.
pub proof fn law_field_names(name: Seq<char>)
    ensures
        structure_field_of(name) matches Some(f) ==> name == lowercase(field_label(f)) || (name
            == "tc_inlet"@ && f == EditField::Tc),
        pipe_field_of(name) matches Some(f) ==> name == field_label(f) || field_label(f) == name
            + " handle"@ || (name == "dia"@ && f == EditField::Diameter) || (name == "mannings"@ && f
            == EditField::N),
        forall|f: EditField|
            #![trigger field_label(f)]
            (f == EditField::Invert || f == EditField::Rim || f == EditField::Area || f == EditField::C
                || f == EditField::Tc) ==> structure_field_of(lowercase(field_label(f))) == Some(f),
        pipe_field_of(field_label(EditField::Diameter)) == Some(EditField::Diameter),
        pipe_field_of(field_label(EditField::N)) == Some(EditField::N),
        field_label(EditField::From) == "from"@ + " handle"@ && pipe_field_of("from"@) == Some(
            EditField::From,
        ),
        field_label(EditField::To) == "to"@ + " handle"@ && pipe_field_of("to"@) == Some(EditField::To),
{
    lemma_lowercase_labels();
    lemma_structure_names();
    lemma_pipe_names();
    reveal_strlit("from handle");
    reveal_strlit("to handle");
    reveal_strlit("from");
    reveal_strlit("to");
    reveal_strlit(" handle");
    assert("from handle"@ =~= "from"@ + " handle"@);
    assert("to handle"@ =~= "to"@ + " handle"@);
}

/// `bad <field>: <value>`.
pub fn bad_value_message(f: EditField, value: &str) -> (r: String)
    ensures
        r@ == "bad "@ + field_label(f) + ": "@ + value@,
{
    let label = match f {
        EditField::Invert => "invert",
        EditField::Rim => "rim",
        EditField::Area => "area",
        EditField::C => "C",
        EditField::Tc => "tc",
        EditField::Diameter => "diameter",
        EditField::N => "n",
        EditField::From => "from handle",
        EditField::To => "to handle",
    };
    let mut v: Vec<char> = Vec::new();
    append_str(&mut v, "bad ");
    append_str(&mut v, label);
    append_str(&mut v, ": ");
    append_str(&mut v, value);
    string_of(&v)
}

} // verus!
