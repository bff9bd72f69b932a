//! Routing of `SS_*` command lines to what they ask for, and the Pro gate.

use vstd::prelude::*;

use crate::license_cmd::{is_pro, lines_text, pro_required_lines, pro_required_text};
use crate::network::NodeKind;
use crate::text::{chars_eq_str, chars_of, has_prefix, is_whitespace, is_ws, slice_chars, starts_with, string_of, trim, trim_chars};

verus! {

/// A recognised `SS_*` command.
pub enum SsCommand {
    Validate,
    Analyze,
    Report,
    ReportHtml,
    MultiRp,
    Profile,
    Size,
    ApplyTc,
    License,
    /// `SS_ACTIVATE` with its arguments (possibly empty).
    Activate(String),
    /// `SS_PARAMS` with the rest of the line, trimmed.
    Params(String),
    /// `SS_IMPORTXML` / `SS_LANDXML` alone: point at the ribbon tool.
    ImportXmlHint,
    /// `SS_IMPORTXML <path>` / `SS_LANDXML <path>`.
    ImportXml(String),
    /// `SS_IMPORTXML ` followed by nothing but whitespace.
    ImportXmlMissingPath,
    /// `SS_INLET` / `SS_JUNCTION` / `SS_OUTFALL` alone: click to place.
    PlaceInteractive(NodeKind),
    /// `SS_INLET <args>` and the like.
    Place(NodeKind, String),
    /// `SS_PIPE` alone: pick two structures.
    PipeInteractive,
    /// `SS_PIPE <args>`.
    Pipe(String),
    /// `SS_EDIT` alone: print its usage.
    EditUsage,
    /// `SS_EDIT <args>`.
    Edit(String),
    /// `SS_CATCHMENT`: explain how catchments are tagged.
    CatchmentInfo,
}

/// The plain content of an [`SsCommand`].
pub enum CommandView {
    Validate,
    Analyze,
    Report,
    ReportHtml,
    MultiRp,
    Profile,
    Size,
    ApplyTc,
    License,
    Activate(Seq<char>),
    Params(Seq<char>),
    ImportXmlHint,
    ImportXml(Seq<char>),
    ImportXmlMissingPath,
    PlaceInteractive(NodeKind),
    Place(NodeKind, Seq<char>),
    PipeInteractive,
    Pipe(Seq<char>),
    EditUsage,
    Edit(Seq<char>),
    CatchmentInfo,
}

impl View for SsCommand {
    type V = CommandView;

    open spec fn view(&self) -> CommandView {
        match self {
            SsCommand::Validate => CommandView::Validate,
            SsCommand::Analyze => CommandView::Analyze,
            SsCommand::Report => CommandView::Report,
            SsCommand::ReportHtml => CommandView::ReportHtml,
            SsCommand::MultiRp => CommandView::MultiRp,
            SsCommand::Profile => CommandView::Profile,
            SsCommand::Size => CommandView::Size,
            SsCommand::ApplyTc => CommandView::ApplyTc,
            SsCommand::License => CommandView::License,
            SsCommand::Activate(a) => CommandView::Activate(a@),
            SsCommand::Params(a) => CommandView::Params(a@),
            SsCommand::ImportXmlHint => CommandView::ImportXmlHint,
            SsCommand::ImportXml(a) => CommandView::ImportXml(a@),
            SsCommand::ImportXmlMissingPath => CommandView::ImportXmlMissingPath,
            SsCommand::PlaceInteractive(k) => CommandView::PlaceInteractive(*k),
            SsCommand::Place(k, a) => CommandView::Place(*k, a@),
            SsCommand::PipeInteractive => CommandView::PipeInteractive,
            SsCommand::Pipe(a) => CommandView::Pipe(a@),
            SsCommand::EditUsage => CommandView::EditUsage,
            SsCommand::Edit(a) => CommandView::Edit(a@),
            SsCommand::CatchmentInfo => CommandView::CatchmentInfo,
        }
    }
}

/// Position of the first whitespace character of `s`.
pub open spec fn first_ws(s: Seq<char>) -> Option<int> {
    if exists|i: int| 0 <= i < s.len() && is_ws(s[i]) {
        Some(choose|i: int| 0 <= i < s.len() && is_ws(s[i]) && forall|k: int| 0 <= k < i ==> !is_ws(s[k]))
    } else {
        None
    }
}

/// Everything after the first token of a command line, trimmed; `None` when
/// that is empty.
pub open spec fn arg_of(s: Seq<char>) -> Option<Seq<char>> {
    match first_ws(s) {
        Some(i) => if trim(s.skip(i + 1)).len() > 0 {
            Some(trim(s.skip(i + 1)))
        } else {
            None
        },
        None => None,
    }
}

/// Everything after the first token (which keeps spaces in file paths).
pub fn command_arg(cmd: &str) -> (r: Option<String>)
    ensures
        match r {
            Some(a) => arg_of(cmd@) == Some(a@),
            None => arg_of(cmd@) is None,
        },
{
    let c = chars_of(cmd);
    let mut i: usize = 0;
    while i < c.len()
        invariant
            c@ == cmd@,
            i <= c.len(),
            forall|k: int| 0 <= k < i ==> !is_ws(#[trigger] c@[k]),
        decreases c.len() - i,
    {
        if is_whitespace(c[i]) {
            proof {
                assert(exists|j: int| 0 <= j < c@.len() && is_ws(c@[j])) by {
                    assert(is_ws(c@[i as int]));
                }
                let j = first_ws(c@)->0;
                if j < i {
                    assert(!is_ws(c@[j]));
                } else if j > i {
                    assert(!is_ws(c@[i as int]));
                }
                assert(first_ws(c@) == Some(i as int));
            }
            let rest = slice_chars(&c, i + 1, c.len());
            assert(rest@ == c@.skip(i + 1));
            let t = trim_chars(&rest);
            if t.len() > 0 {
                return Some(string_of(&t));
            } else {
                return None;
            }
        }
        i = i + 1;
    }
    assert(!(exists|j: int| 0 <= j < c@.len() && is_ws(c@[j])));
    None
}

/// `or_empty(arg_of(s))`.
pub open spec fn arg_or_empty(s: Seq<char>) -> Seq<char> {
    match arg_of(s) {
        Some(a) => a,
        None => Seq::<char>::empty(),
    }
}

fn command_arg_or_empty(cmd: &str) -> (r: String)
    ensures
        r@ == arg_or_empty(cmd@),
{
    match command_arg(cmd) {
        Some(a) => a,
        None => String::new(),
    }
}

/// What the command line `s` asks for; `None` when it is not one of this
/// plugin's commands.
pub open spec fn route_of(s: Seq<char>) -> Option<CommandView> {
    if !has_prefix(s, "SS_"@) {
        None
    } else if s == "SS_VALIDATE"@ {
        Some(CommandView::Validate)
    } else if s == "SS_ANALYZE"@ {
        Some(CommandView::Analyze)
    } else if s == "SS_REPORT"@ {
        Some(CommandView::Report)
    } else if s == "SS_REPORT_HTML"@ {
        Some(CommandView::ReportHtml)
    } else if s == "SS_MULTIRP"@ {
        Some(CommandView::MultiRp)
    } else if s == "SS_PROFILE"@ {
        Some(CommandView::Profile)
    } else if s == "SS_SIZE"@ {
        Some(CommandView::Size)
    } else if s == "SS_APPLYTC"@ {
        Some(CommandView::ApplyTc)
    } else if s == "SS_LICENSE"@ {
        Some(CommandView::License)
    } else if s == "SS_ACTIVATE"@ || has_prefix(s, "SS_ACTIVATE "@) {
        Some(CommandView::Activate(arg_or_empty(s)))
    } else if s == "SS_PARAMS"@ || has_prefix(s, "SS_PARAMS "@) {
        Some(CommandView::Params(trim(s.skip(9))))
    } else if s == "SS_LANDXML"@ || s == "SS_IMPORTXML"@ {
        Some(CommandView::ImportXmlHint)
    } else if has_prefix(s, "SS_LANDXML "@) || has_prefix(s, "SS_IMPORTXML "@) {
        match arg_of(s) {
            Some(p) => Some(CommandView::ImportXml(p)),
            None => Some(CommandView::ImportXmlMissingPath),
        }
    } else if s == "SS_INLET"@ {
        Some(CommandView::PlaceInteractive(NodeKind::Inlet))
    } else if has_prefix(s, "SS_INLET "@) {
        Some(CommandView::Place(NodeKind::Inlet, arg_or_empty(s)))
    } else if s == "SS_JUNCTION"@ {
        Some(CommandView::PlaceInteractive(NodeKind::Junction))
    } else if has_prefix(s, "SS_JUNCTION "@) {
        Some(CommandView::Place(NodeKind::Junction, arg_or_empty(s)))
    } else if s == "SS_OUTFALL"@ {
        Some(CommandView::PlaceInteractive(NodeKind::Outfall))
    } else if has_prefix(s, "SS_OUTFALL "@) {
        Some(CommandView::Place(NodeKind::Outfall, arg_or_empty(s)))
    } else if s == "SS_PIPE"@ {
        Some(CommandView::PipeInteractive)
    } else if has_prefix(s, "SS_PIPE "@) {
        Some(CommandView::Pipe(arg_or_empty(s)))
    } else if s == "SS_EDIT"@ {
        Some(CommandView::EditUsage)
    } else if has_prefix(s, "SS_EDIT "@) {
        Some(CommandView::Edit(arg_or_empty(s)))
    } else if s == "SS_CATCHMENT"@ {
        Some(CommandView::CatchmentInfo)
    } else {
        None
    }
}

pub open spec fn route_view(r: Option<SsCommand>) -> Option<CommandView> {
    match r {
        Some(c) => Some(c@),
        None => None,
    }
}

/// Which `SS_*` command the line `cmd` is; `None` when it is not one of
/// this plugin's (the host then tries other handlers).
pub fn route(cmd: &str) -> (r: Option<SsCommand>)
    ensures
        route_view(r) == route_of(cmd@),
{
    proof {
        reveal_strlit("SS_PARAMS");
        reveal_strlit("SS_PARAMS ");
    }
    let c = chars_of(cmd);
    if !starts_with(&c, "SS_") {
        return None;
    }
    if chars_eq_str(&c, "SS_VALIDATE") {
        return Some(SsCommand::Validate);
    }
    if chars_eq_str(&c, "SS_ANALYZE") {
        return Some(SsCommand::Analyze);
    }
    if chars_eq_str(&c, "SS_REPORT") {
        return Some(SsCommand::Report);
    }
    if chars_eq_str(&c, "SS_REPORT_HTML") {
        return Some(SsCommand::ReportHtml);
    }
    if chars_eq_str(&c, "SS_MULTIRP") {
        return Some(SsCommand::MultiRp);
    }
    if chars_eq_str(&c, "SS_PROFILE") {
        return Some(SsCommand::Profile);
    }
    if chars_eq_str(&c, "SS_SIZE") {
        return Some(SsCommand::Size);
    }
    if chars_eq_str(&c, "SS_APPLYTC") {
        return Some(SsCommand::ApplyTc);
    }
    if chars_eq_str(&c, "SS_LICENSE") {
        return Some(SsCommand::License);
    }
    if chars_eq_str(&c, "SS_ACTIVATE") || starts_with(&c, "SS_ACTIVATE ") {
        return Some(SsCommand::Activate(command_arg_or_empty(cmd)));
    }
    if chars_eq_str(&c, "SS_PARAMS") || starts_with(&c, "SS_PARAMS ") {
        let rest = slice_chars(&c, 9, c.len());
        assert(rest@ == cmd@.skip(9));
        let t = trim_chars(&rest);
        return Some(SsCommand::Params(string_of(&t)));
    }
    if chars_eq_str(&c, "SS_LANDXML") || chars_eq_str(&c, "SS_IMPORTXML") {
        return Some(SsCommand::ImportXmlHint);
    }
    if starts_with(&c, "SS_LANDXML ") || starts_with(&c, "SS_IMPORTXML ") {
        return match command_arg(cmd) {
            Some(p) => Some(SsCommand::ImportXml(p)),
            None => Some(SsCommand::ImportXmlMissingPath),
        };
    }
    if chars_eq_str(&c, "SS_INLET") {
        return Some(SsCommand::PlaceInteractive(NodeKind::Inlet));
    }
    if starts_with(&c, "SS_INLET ") {
        return Some(SsCommand::Place(NodeKind::Inlet, command_arg_or_empty(cmd)));
    }
    if chars_eq_str(&c, "SS_JUNCTION") {
        return Some(SsCommand::PlaceInteractive(NodeKind::Junction));
    }
    if starts_with(&c, "SS_JUNCTION ") {
        return Some(SsCommand::Place(NodeKind::Junction, command_arg_or_empty(cmd)));
    }
    if chars_eq_str(&c, "SS_OUTFALL") {
        return Some(SsCommand::PlaceInteractive(NodeKind::Outfall));
    }
    if starts_with(&c, "SS_OUTFALL ") {
        return Some(SsCommand::Place(NodeKind::Outfall, command_arg_or_empty(cmd)));
    }
    if chars_eq_str(&c, "SS_PIPE") {
        return Some(SsCommand::PipeInteractive);
    }
    if starts_with(&c, "SS_PIPE ") {
        return Some(SsCommand::Pipe(command_arg_or_empty(cmd)));
    }
    if chars_eq_str(&c, "SS_EDIT") {
        return Some(SsCommand::EditUsage);
    }
    if starts_with(&c, "SS_EDIT ") {
        return Some(SsCommand::Edit(command_arg_or_empty(cmd)));
    }
    if chars_eq_str(&c, "SS_CATCHMENT") {
        return Some(SsCommand::CatchmentInfo);
    }
    None
}

/// The command's name as the Pro gate names it, for the gated commands.
pub open spec fn gated_name(c: CommandView) -> Option<Seq<char>> {
    match c {
        CommandView::ReportHtml => Some("SS_REPORT_HTML"@),
        CommandView::Size => Some("SS_SIZE"@),
        CommandView::MultiRp => Some("SS_MULTIRP"@),
        _ => None,
    }
}

/// Whether `cmd` is a Pro command, so that running it asks for the license.
pub fn needs_pro(cmd: &SsCommand) -> (r: bool)
    ensures
        r == (gated_name(cmd@) is Some),
{
    match cmd {
        SsCommand::ReportHtml | SsCommand::Size | SsCommand::MultiRp => true,
        _ => false,
    }
}

/// The Pro gate: the lines to print instead of running `cmd`, when `cmd` is
/// a Pro command and Pro is not enabled; `None` when `cmd` may run.
pub fn pro_gate(cmd: &SsCommand, pro_enabled: bool) -> (r: Option<Vec<String>>)
    ensures
        match r {
            Some(lines) => {
                &&& !pro_enabled
                &&& gated_name(cmd@) matches Some(n)
                &&& lines_text(lines@) == pro_required_text(n)
            },
            None => pro_enabled || gated_name(cmd@) is None,
        },
{
    if pro_enabled {
        return None;
    }
    match cmd {
        SsCommand::ReportHtml => Some(pro_required_lines("SS_REPORT_HTML")),
        SsCommand::Size => Some(pro_required_lines("SS_SIZE")),
        SsCommand::MultiRp => Some(pro_required_lines("SS_MULTIRP")),
        _ => None,
    }
}

/// Law: Pro licensing holds back exactly the Pro deliverables: every
/// command that needs Pro is one of them, and each of them needs Pro.
pub proof fn law_gate_covers_pro_commands(c: CommandView, name: Seq<char>)
    ensures
        gated_name(c) matches Some(n) ==> is_pro(n),
        is_pro(name) ==> exists|g: CommandView| gated_name(g) == Some(name),
{
    if is_pro(name) {
        if name == "SS_REPORT_HTML"@ {
            assert(gated_name(CommandView::ReportHtml) == Some(name));
        } else if name == "SS_SIZE"@ {
            assert(gated_name(CommandView::Size) == Some(name));
        } else {
            assert(gated_name(CommandView::MultiRp) == Some(name));
        }
    }
}


proof fn lemma_prefix_differs(s: Seq<char>, p: Seq<char>, q: Seq<char>, i: int)
    requires
        has_prefix(s, p),
        0 <= i < p.len(),
        i < q.len(),
        p[i] != q[i],
    ensures
        s != q,
        !has_prefix(s, q),
{
    assert(s.take(p.len() as int)[i] == s[i]);
    if has_prefix(s, q) {
        assert(s.take(q.len() as int)[i] == s[i]);
    }
}

proof fn lemma_longer(s: Seq<char>, p: Seq<char>, q: Seq<char>)
    requires
        has_prefix(s, p),
        q.len() < p.len(),
    ensures
        s != q,
{
}

proof fn lemma_shorter(s: Seq<char>, q: Seq<char>)
    requires
        s.len() < q.len(),
    ensures
        s != q,
        !has_prefix(s, q),
{
}

proof fn lemma_ss_prefix(s: Seq<char>, p: Seq<char>)
    requires
        has_prefix(s, p),
        p.len() >= 3,
        p[0] == 'S' && p[1] == 'S' && p[2] == '_',
    ensures
        has_prefix(s, "SS_"@),
{
    reveal_strlit("SS_");
    assert(s.take(3) =~= "SS_"@) by {
        assert forall|k: int| 0 <= k < 3 implies s.take(3)[k] == "SS_"@[k] by {
            assert(s.take(p.len() as int)[k] == s[k]);
        }
    }
}

proof fn lemma_route_inlet_alone(s: Seq<char>)
    requires
        s == "SS_INLET"@,
    ensures
        route_of(s) == Some(CommandView::PlaceInteractive(NodeKind::Inlet)),
{
    reveal_strlit("SS_INLET");
    reveal_strlit("SS_VALIDATE");
    reveal_strlit("SS_ANALYZE");
    reveal_strlit("SS_REPORT");
    reveal_strlit("SS_REPORT_HTML");
    reveal_strlit("SS_MULTIRP");
    reveal_strlit("SS_PROFILE");
    reveal_strlit("SS_SIZE");
    reveal_strlit("SS_APPLYTC");
    reveal_strlit("SS_LICENSE");
    reveal_strlit("SS_ACTIVATE");
    reveal_strlit("SS_ACTIVATE ");
    reveal_strlit("SS_PARAMS");
    reveal_strlit("SS_PARAMS ");
    reveal_strlit("SS_LANDXML");
    reveal_strlit("SS_IMPORTXML");
    reveal_strlit("SS_LANDXML ");
    reveal_strlit("SS_IMPORTXML ");
    assert(has_prefix(s, "SS_INLET"@)) by {
        assert(s.take(s.len() as int) =~= s);
    }
    lemma_ss_prefix(s, "SS_INLET"@);
    lemma_prefix_differs(s, "SS_INLET"@, "SS_VALIDATE"@, 3);
    lemma_prefix_differs(s, "SS_INLET"@, "SS_ANALYZE"@, 3);
    lemma_prefix_differs(s, "SS_INLET"@, "SS_REPORT"@, 3);
    lemma_prefix_differs(s, "SS_INLET"@, "SS_REPORT_HTML"@, 3);
    lemma_prefix_differs(s, "SS_INLET"@, "SS_MULTIRP"@, 3);
    lemma_prefix_differs(s, "SS_INLET"@, "SS_PROFILE"@, 3);
    lemma_prefix_differs(s, "SS_INLET"@, "SS_SIZE"@, 3);
    lemma_prefix_differs(s, "SS_INLET"@, "SS_APPLYTC"@, 3);
    lemma_prefix_differs(s, "SS_INLET"@, "SS_LICENSE"@, 3);
    lemma_prefix_differs(s, "SS_INLET"@, "SS_ACTIVATE"@, 3);
    lemma_prefix_differs(s, "SS_INLET"@, "SS_ACTIVATE "@, 3);
    lemma_prefix_differs(s, "SS_INLET"@, "SS_PARAMS"@, 3);
    lemma_prefix_differs(s, "SS_INLET"@, "SS_PARAMS "@, 3);
    lemma_prefix_differs(s, "SS_INLET"@, "SS_LANDXML"@, 3);
    lemma_prefix_differs(s, "SS_INLET"@, "SS_IMPORTXML"@, 4);
    lemma_prefix_differs(s, "SS_INLET"@, "SS_LANDXML "@, 3);
    lemma_prefix_differs(s, "SS_INLET"@, "SS_IMPORTXML "@, 4);
}

proof fn lemma_route_inlet_args(s: Seq<char>)
    requires
        has_prefix(s, "SS_INLET "@),
    ensures
        route_of(s) == Some(CommandView::Place(NodeKind::Inlet, arg_or_empty(s))),
{
    reveal_strlit("SS_INLET ");
    reveal_strlit("SS_VALIDATE");
    reveal_strlit("SS_ANALYZE");
    reveal_strlit("SS_REPORT");
    reveal_strlit("SS_REPORT_HTML");
    reveal_strlit("SS_MULTIRP");
    reveal_strlit("SS_PROFILE");
    reveal_strlit("SS_SIZE");
    reveal_strlit("SS_APPLYTC");
    reveal_strlit("SS_LICENSE");
    reveal_strlit("SS_ACTIVATE");
    reveal_strlit("SS_ACTIVATE ");
    reveal_strlit("SS_PARAMS");
    reveal_strlit("SS_PARAMS ");
    reveal_strlit("SS_LANDXML");
    reveal_strlit("SS_IMPORTXML");
    reveal_strlit("SS_LANDXML ");
    reveal_strlit("SS_IMPORTXML ");
    reveal_strlit("SS_INLET");
    lemma_ss_prefix(s, "SS_INLET "@);
    lemma_prefix_differs(s, "SS_INLET "@, "SS_VALIDATE"@, 3);
    lemma_prefix_differs(s, "SS_INLET "@, "SS_ANALYZE"@, 3);
    lemma_prefix_differs(s, "SS_INLET "@, "SS_REPORT"@, 3);
    lemma_prefix_differs(s, "SS_INLET "@, "SS_REPORT_HTML"@, 3);
    lemma_prefix_differs(s, "SS_INLET "@, "SS_MULTIRP"@, 3);
    lemma_prefix_differs(s, "SS_INLET "@, "SS_PROFILE"@, 3);
    lemma_prefix_differs(s, "SS_INLET "@, "SS_SIZE"@, 3);
    lemma_prefix_differs(s, "SS_INLET "@, "SS_APPLYTC"@, 3);
    lemma_prefix_differs(s, "SS_INLET "@, "SS_LICENSE"@, 3);
    lemma_prefix_differs(s, "SS_INLET "@, "SS_ACTIVATE"@, 3);
    lemma_prefix_differs(s, "SS_INLET "@, "SS_ACTIVATE "@, 3);
    lemma_prefix_differs(s, "SS_INLET "@, "SS_PARAMS"@, 3);
    lemma_prefix_differs(s, "SS_INLET "@, "SS_PARAMS "@, 3);
    lemma_prefix_differs(s, "SS_INLET "@, "SS_LANDXML"@, 3);
    lemma_prefix_differs(s, "SS_INLET "@, "SS_IMPORTXML"@, 4);
    lemma_prefix_differs(s, "SS_INLET "@, "SS_LANDXML "@, 3);
    lemma_prefix_differs(s, "SS_INLET "@, "SS_IMPORTXML "@, 4);
    lemma_longer(s, "SS_INLET "@, "SS_INLET"@);
}

proof fn lemma_route_junction_alone(s: Seq<char>)
    requires
        s == "SS_JUNCTION"@,
    ensures
        route_of(s) == Some(CommandView::PlaceInteractive(NodeKind::Junction)),
{
    reveal_strlit("SS_JUNCTION");
    reveal_strlit("SS_VALIDATE");
    reveal_strlit("SS_ANALYZE");
    reveal_strlit("SS_REPORT");
    reveal_strlit("SS_REPORT_HTML");
    reveal_strlit("SS_MULTIRP");
    reveal_strlit("SS_PROFILE");
    reveal_strlit("SS_SIZE");
    reveal_strlit("SS_APPLYTC");
    reveal_strlit("SS_LICENSE");
    reveal_strlit("SS_ACTIVATE");
    reveal_strlit("SS_ACTIVATE ");
    reveal_strlit("SS_PARAMS");
    reveal_strlit("SS_PARAMS ");
    reveal_strlit("SS_LANDXML");
    reveal_strlit("SS_IMPORTXML");
    reveal_strlit("SS_LANDXML ");
    reveal_strlit("SS_IMPORTXML ");
    reveal_strlit("SS_INLET");
    reveal_strlit("SS_INLET ");
    assert(has_prefix(s, "SS_JUNCTION"@)) by {
        assert(s.take(s.len() as int) =~= s);
    }
    lemma_ss_prefix(s, "SS_JUNCTION"@);
    lemma_prefix_differs(s, "SS_JUNCTION"@, "SS_VALIDATE"@, 3);
    lemma_prefix_differs(s, "SS_JUNCTION"@, "SS_ANALYZE"@, 3);
    lemma_prefix_differs(s, "SS_JUNCTION"@, "SS_REPORT"@, 3);
    lemma_prefix_differs(s, "SS_JUNCTION"@, "SS_REPORT_HTML"@, 3);
    lemma_prefix_differs(s, "SS_JUNCTION"@, "SS_MULTIRP"@, 3);
    lemma_prefix_differs(s, "SS_JUNCTION"@, "SS_PROFILE"@, 3);
    lemma_prefix_differs(s, "SS_JUNCTION"@, "SS_SIZE"@, 3);
    lemma_prefix_differs(s, "SS_JUNCTION"@, "SS_APPLYTC"@, 3);
    lemma_prefix_differs(s, "SS_JUNCTION"@, "SS_LICENSE"@, 3);
    lemma_prefix_differs(s, "SS_JUNCTION"@, "SS_ACTIVATE"@, 3);
    lemma_prefix_differs(s, "SS_JUNCTION"@, "SS_ACTIVATE "@, 3);
    lemma_prefix_differs(s, "SS_JUNCTION"@, "SS_PARAMS"@, 3);
    lemma_prefix_differs(s, "SS_JUNCTION"@, "SS_PARAMS "@, 3);
    lemma_prefix_differs(s, "SS_JUNCTION"@, "SS_LANDXML"@, 3);
    lemma_prefix_differs(s, "SS_JUNCTION"@, "SS_IMPORTXML"@, 3);
    lemma_prefix_differs(s, "SS_JUNCTION"@, "SS_LANDXML "@, 3);
    lemma_prefix_differs(s, "SS_JUNCTION"@, "SS_IMPORTXML "@, 3);
    lemma_prefix_differs(s, "SS_JUNCTION"@, "SS_INLET"@, 3);
    lemma_prefix_differs(s, "SS_JUNCTION"@, "SS_INLET "@, 3);
}

proof fn lemma_route_junction_args(s: Seq<char>)
    requires
        has_prefix(s, "SS_JUNCTION "@),
    ensures
        route_of(s) == Some(CommandView::Place(NodeKind::Junction, arg_or_empty(s))),
{
    reveal_strlit("SS_JUNCTION ");
    reveal_strlit("SS_VALIDATE");
    reveal_strlit("SS_ANALYZE");
    reveal_strlit("SS_REPORT");
    reveal_strlit("SS_REPORT_HTML");
    reveal_strlit("SS_MULTIRP");
    reveal_strlit("SS_PROFILE");
    reveal_strlit("SS_SIZE");
    reveal_strlit("SS_APPLYTC");
    reveal_strlit("SS_LICENSE");
    reveal_strlit("SS_ACTIVATE");
    reveal_strlit("SS_ACTIVATE ");
    reveal_strlit("SS_PARAMS");
    reveal_strlit("SS_PARAMS ");
    reveal_strlit("SS_LANDXML");
    reveal_strlit("SS_IMPORTXML");
    reveal_strlit("SS_LANDXML ");
    reveal_strlit("SS_IMPORTXML ");
    reveal_strlit("SS_INLET");
    reveal_strlit("SS_INLET ");
    reveal_strlit("SS_JUNCTION");
    lemma_ss_prefix(s, "SS_JUNCTION "@);
    lemma_prefix_differs(s, "SS_JUNCTION "@, "SS_VALIDATE"@, 3);
    lemma_prefix_differs(s, "SS_JUNCTION "@, "SS_ANALYZE"@, 3);
    lemma_prefix_differs(s, "SS_JUNCTION "@, "SS_REPORT"@, 3);
    lemma_prefix_differs(s, "SS_JUNCTION "@, "SS_REPORT_HTML"@, 3);
    lemma_prefix_differs(s, "SS_JUNCTION "@, "SS_MULTIRP"@, 3);
    lemma_prefix_differs(s, "SS_JUNCTION "@, "SS_PROFILE"@, 3);
    lemma_prefix_differs(s, "SS_JUNCTION "@, "SS_SIZE"@, 3);
    lemma_prefix_differs(s, "SS_JUNCTION "@, "SS_APPLYTC"@, 3);
    lemma_prefix_differs(s, "SS_JUNCTION "@, "SS_LICENSE"@, 3);
    lemma_prefix_differs(s, "SS_JUNCTION "@, "SS_ACTIVATE"@, 3);
    lemma_prefix_differs(s, "SS_JUNCTION "@, "SS_ACTIVATE "@, 3);
    lemma_prefix_differs(s, "SS_JUNCTION "@, "SS_PARAMS"@, 3);
    lemma_prefix_differs(s, "SS_JUNCTION "@, "SS_PARAMS "@, 3);
    lemma_prefix_differs(s, "SS_JUNCTION "@, "SS_LANDXML"@, 3);
    lemma_prefix_differs(s, "SS_JUNCTION "@, "SS_IMPORTXML"@, 3);
    lemma_prefix_differs(s, "SS_JUNCTION "@, "SS_LANDXML "@, 3);
    lemma_prefix_differs(s, "SS_JUNCTION "@, "SS_IMPORTXML "@, 3);
    lemma_prefix_differs(s, "SS_JUNCTION "@, "SS_INLET"@, 3);
    lemma_prefix_differs(s, "SS_JUNCTION "@, "SS_INLET "@, 3);
    lemma_longer(s, "SS_JUNCTION "@, "SS_JUNCTION"@);
}

proof fn lemma_route_outfall_alone(s: Seq<char>)
    requires
        s == "SS_OUTFALL"@,
    ensures
        route_of(s) == Some(CommandView::PlaceInteractive(NodeKind::Outfall)),
{
    reveal_strlit("SS_OUTFALL");
    reveal_strlit("SS_VALIDATE");
    reveal_strlit("SS_ANALYZE");
    reveal_strlit("SS_REPORT");
    reveal_strlit("SS_REPORT_HTML");
    reveal_strlit("SS_MULTIRP");
    reveal_strlit("SS_PROFILE");
    reveal_strlit("SS_SIZE");
    reveal_strlit("SS_APPLYTC");
    reveal_strlit("SS_LICENSE");
    reveal_strlit("SS_ACTIVATE");
    reveal_strlit("SS_ACTIVATE ");
    reveal_strlit("SS_PARAMS");
    reveal_strlit("SS_PARAMS ");
    reveal_strlit("SS_LANDXML");
    reveal_strlit("SS_IMPORTXML");
    reveal_strlit("SS_LANDXML ");
    reveal_strlit("SS_IMPORTXML ");
    reveal_strlit("SS_INLET");
    reveal_strlit("SS_INLET ");
    reveal_strlit("SS_JUNCTION");
    reveal_strlit("SS_JUNCTION ");
    assert(has_prefix(s, "SS_OUTFALL"@)) by {
        assert(s.take(s.len() as int) =~= s);
    }
    lemma_ss_prefix(s, "SS_OUTFALL"@);
    lemma_prefix_differs(s, "SS_OUTFALL"@, "SS_VALIDATE"@, 3);
    lemma_prefix_differs(s, "SS_OUTFALL"@, "SS_ANALYZE"@, 3);
    lemma_prefix_differs(s, "SS_OUTFALL"@, "SS_REPORT"@, 3);
    lemma_prefix_differs(s, "SS_OUTFALL"@, "SS_REPORT_HTML"@, 3);
    lemma_prefix_differs(s, "SS_OUTFALL"@, "SS_MULTIRP"@, 3);
    lemma_prefix_differs(s, "SS_OUTFALL"@, "SS_PROFILE"@, 3);
    lemma_prefix_differs(s, "SS_OUTFALL"@, "SS_SIZE"@, 3);
    lemma_prefix_differs(s, "SS_OUTFALL"@, "SS_APPLYTC"@, 3);
    lemma_prefix_differs(s, "SS_OUTFALL"@, "SS_LICENSE"@, 3);
    lemma_prefix_differs(s, "SS_OUTFALL"@, "SS_ACTIVATE"@, 3);
    lemma_prefix_differs(s, "SS_OUTFALL"@, "SS_ACTIVATE "@, 3);
    lemma_prefix_differs(s, "SS_OUTFALL"@, "SS_PARAMS"@, 3);
    lemma_prefix_differs(s, "SS_OUTFALL"@, "SS_PARAMS "@, 3);
    lemma_prefix_differs(s, "SS_OUTFALL"@, "SS_LANDXML"@, 3);
    lemma_prefix_differs(s, "SS_OUTFALL"@, "SS_IMPORTXML"@, 3);
    lemma_prefix_differs(s, "SS_OUTFALL"@, "SS_LANDXML "@, 3);
    lemma_prefix_differs(s, "SS_OUTFALL"@, "SS_IMPORTXML "@, 3);
    lemma_prefix_differs(s, "SS_OUTFALL"@, "SS_INLET"@, 3);
    lemma_prefix_differs(s, "SS_OUTFALL"@, "SS_INLET "@, 3);
    lemma_prefix_differs(s, "SS_OUTFALL"@, "SS_JUNCTION"@, 3);
    lemma_prefix_differs(s, "SS_OUTFALL"@, "SS_JUNCTION "@, 3);
}

proof fn lemma_route_outfall_args(s: Seq<char>)
    requires
        has_prefix(s, "SS_OUTFALL "@),
    ensures
        route_of(s) == Some(CommandView::Place(NodeKind::Outfall, arg_or_empty(s))),
{
    reveal_strlit("SS_OUTFALL ");
    reveal_strlit("SS_VALIDATE");
    reveal_strlit("SS_ANALYZE");
    reveal_strlit("SS_REPORT");
    reveal_strlit("SS_REPORT_HTML");
    reveal_strlit("SS_MULTIRP");
    reveal_strlit("SS_PROFILE");
    reveal_strlit("SS_SIZE");
    reveal_strlit("SS_APPLYTC");
    reveal_strlit("SS_LICENSE");
    reveal_strlit("SS_ACTIVATE");
    reveal_strlit("SS_ACTIVATE ");
    reveal_strlit("SS_PARAMS");
    reveal_strlit("SS_PARAMS ");
    reveal_strlit("SS_LANDXML");
    reveal_strlit("SS_IMPORTXML");
    reveal_strlit("SS_LANDXML ");
    reveal_strlit("SS_IMPORTXML ");
    reveal_strlit("SS_INLET");
    reveal_strlit("SS_INLET ");
    reveal_strlit("SS_JUNCTION");
    reveal_strlit("SS_JUNCTION ");
    reveal_strlit("SS_OUTFALL");
    lemma_ss_prefix(s, "SS_OUTFALL "@);
    lemma_prefix_differs(s, "SS_OUTFALL "@, "SS_VALIDATE"@, 3);
    lemma_prefix_differs(s, "SS_OUTFALL "@, "SS_ANALYZE"@, 3);
    lemma_prefix_differs(s, "SS_OUTFALL "@, "SS_REPORT"@, 3);
    lemma_prefix_differs(s, "SS_OUTFALL "@, "SS_REPORT_HTML"@, 3);
    lemma_prefix_differs(s, "SS_OUTFALL "@, "SS_MULTIRP"@, 3);
    lemma_prefix_differs(s, "SS_OUTFALL "@, "SS_PROFILE"@, 3);
    lemma_prefix_differs(s, "SS_OUTFALL "@, "SS_SIZE"@, 3);
    lemma_prefix_differs(s, "SS_OUTFALL "@, "SS_APPLYTC"@, 3);
    lemma_prefix_differs(s, "SS_OUTFALL "@, "SS_LICENSE"@, 3);
    lemma_prefix_differs(s, "SS_OUTFALL "@, "SS_ACTIVATE"@, 3);
    lemma_prefix_differs(s, "SS_OUTFALL "@, "SS_ACTIVATE "@, 3);
    lemma_prefix_differs(s, "SS_OUTFALL "@, "SS_PARAMS"@, 3);
    lemma_prefix_differs(s, "SS_OUTFALL "@, "SS_PARAMS "@, 3);
    lemma_prefix_differs(s, "SS_OUTFALL "@, "SS_LANDXML"@, 3);
    lemma_prefix_differs(s, "SS_OUTFALL "@, "SS_IMPORTXML"@, 3);
    lemma_prefix_differs(s, "SS_OUTFALL "@, "SS_LANDXML "@, 3);
    lemma_prefix_differs(s, "SS_OUTFALL "@, "SS_IMPORTXML "@, 3);
    lemma_prefix_differs(s, "SS_OUTFALL "@, "SS_INLET"@, 3);
    lemma_prefix_differs(s, "SS_OUTFALL "@, "SS_INLET "@, 3);
    lemma_prefix_differs(s, "SS_OUTFALL "@, "SS_JUNCTION"@, 3);
    lemma_prefix_differs(s, "SS_OUTFALL "@, "SS_JUNCTION "@, 3);
    lemma_longer(s, "SS_OUTFALL "@, "SS_OUTFALL"@);
}

/// Law: a placement command places the kind of structure its command word
/// names: `SS_INLET`, `SS_JUNCTION` and `SS_OUTFALL` alone start the
/// interactive placement of an inlet, a junction and an outfall, and followed
/// by a space they place one with the rest of the line as its arguments.
pub proof fn law_place_kind(s: Seq<char>)
    ensures
        s == "SS_INLET"@ ==> route_of(s) == Some(CommandView::PlaceInteractive(NodeKind::Inlet)),
        s == "SS_JUNCTION"@ ==> route_of(s) == Some(CommandView::PlaceInteractive(NodeKind::Junction)),
        s == "SS_OUTFALL"@ ==> route_of(s) == Some(CommandView::PlaceInteractive(NodeKind::Outfall)),
        has_prefix(s, "SS_INLET "@) ==> route_of(s) == Some(
            CommandView::Place(NodeKind::Inlet, arg_or_empty(s)),
        ),
        has_prefix(s, "SS_JUNCTION "@) ==> route_of(s) == Some(
            CommandView::Place(NodeKind::Junction, arg_or_empty(s)),
        ),
        has_prefix(s, "SS_OUTFALL "@) ==> route_of(s) == Some(
            CommandView::Place(NodeKind::Outfall, arg_or_empty(s)),
        ),
{
    if s == "SS_INLET"@ {
        lemma_route_inlet_alone(s);
    }
    if s == "SS_JUNCTION"@ {
        lemma_route_junction_alone(s);
    }
    if s == "SS_OUTFALL"@ {
        lemma_route_outfall_alone(s);
    }
    if has_prefix(s, "SS_INLET "@) {
        lemma_route_inlet_args(s);
    }
    if has_prefix(s, "SS_JUNCTION "@) {
        lemma_route_junction_args(s);
    }
    if has_prefix(s, "SS_OUTFALL "@) {
        lemma_route_outfall_args(s);
    }
}


proof fn lemma_route_validate(s: Seq<char>)
    requires
        s == "SS_VALIDATE"@,
    ensures
        route_of(s) == Some(CommandView::Validate),
{
    reveal_strlit("SS_VALIDATE");
    assert(has_prefix(s, "SS_VALIDATE"@)) by {
        assert(s.take(s.len() as int) =~= s);
    }
    lemma_ss_prefix(s, "SS_VALIDATE"@);

}

proof fn lemma_route_analyze(s: Seq<char>)
    requires
        s == "SS_ANALYZE"@,
    ensures
        route_of(s) == Some(CommandView::Analyze),
{
    reveal_strlit("SS_ANALYZE");
    reveal_strlit("SS_VALIDATE");
    assert(has_prefix(s, "SS_ANALYZE"@)) by {
        assert(s.take(s.len() as int) =~= s);
    }
    lemma_ss_prefix(s, "SS_ANALYZE"@);
    lemma_prefix_differs(s, "SS_ANALYZE"@, "SS_VALIDATE"@, 3);
}

proof fn lemma_route_report(s: Seq<char>)
    requires
        s == "SS_REPORT"@,
    ensures
        route_of(s) == Some(CommandView::Report),
{
    reveal_strlit("SS_REPORT");
    reveal_strlit("SS_VALIDATE");
    reveal_strlit("SS_ANALYZE");
    assert(has_prefix(s, "SS_REPORT"@)) by {
        assert(s.take(s.len() as int) =~= s);
    }
    lemma_ss_prefix(s, "SS_REPORT"@);
    lemma_prefix_differs(s, "SS_REPORT"@, "SS_VALIDATE"@, 3);
    lemma_prefix_differs(s, "SS_REPORT"@, "SS_ANALYZE"@, 3);
}

proof fn lemma_route_report_html(s: Seq<char>)
    requires
        s == "SS_REPORT_HTML"@,
    ensures
        route_of(s) == Some(CommandView::ReportHtml),
{
    reveal_strlit("SS_REPORT_HTML");
    reveal_strlit("SS_VALIDATE");
    reveal_strlit("SS_ANALYZE");
    reveal_strlit("SS_REPORT");
    assert(has_prefix(s, "SS_REPORT_HTML"@)) by {
        assert(s.take(s.len() as int) =~= s);
    }
    lemma_ss_prefix(s, "SS_REPORT_HTML"@);
    lemma_prefix_differs(s, "SS_REPORT_HTML"@, "SS_VALIDATE"@, 3);
    lemma_prefix_differs(s, "SS_REPORT_HTML"@, "SS_ANALYZE"@, 3);
    lemma_longer(s, "SS_REPORT_HTML"@, "SS_REPORT"@);
}

proof fn lemma_route_multirp(s: Seq<char>)
    requires
        s == "SS_MULTIRP"@,
    ensures
        route_of(s) == Some(CommandView::MultiRp),
{
    reveal_strlit("SS_MULTIRP");
    reveal_strlit("SS_VALIDATE");
    reveal_strlit("SS_ANALYZE");
    reveal_strlit("SS_REPORT");
    reveal_strlit("SS_REPORT_HTML");
    assert(has_prefix(s, "SS_MULTIRP"@)) by {
        assert(s.take(s.len() as int) =~= s);
    }
    lemma_ss_prefix(s, "SS_MULTIRP"@);
    lemma_prefix_differs(s, "SS_MULTIRP"@, "SS_VALIDATE"@, 3);
    lemma_prefix_differs(s, "SS_MULTIRP"@, "SS_ANALYZE"@, 3);
    lemma_prefix_differs(s, "SS_MULTIRP"@, "SS_REPORT"@, 3);
    lemma_prefix_differs(s, "SS_MULTIRP"@, "SS_REPORT_HTML"@, 3);
}

proof fn lemma_route_profile(s: Seq<char>)
    requires
        s == "SS_PROFILE"@,
    ensures
        route_of(s) == Some(CommandView::Profile),
{
    reveal_strlit("SS_PROFILE");
    reveal_strlit("SS_VALIDATE");
    reveal_strlit("SS_ANALYZE");
    reveal_strlit("SS_REPORT");
    reveal_strlit("SS_REPORT_HTML");
    reveal_strlit("SS_MULTIRP");
    assert(has_prefix(s, "SS_PROFILE"@)) by {
        assert(s.take(s.len() as int) =~= s);
    }
    lemma_ss_prefix(s, "SS_PROFILE"@);
    lemma_prefix_differs(s, "SS_PROFILE"@, "SS_VALIDATE"@, 3);
    lemma_prefix_differs(s, "SS_PROFILE"@, "SS_ANALYZE"@, 3);
    lemma_prefix_differs(s, "SS_PROFILE"@, "SS_REPORT"@, 3);
    lemma_prefix_differs(s, "SS_PROFILE"@, "SS_REPORT_HTML"@, 3);
    lemma_prefix_differs(s, "SS_PROFILE"@, "SS_MULTIRP"@, 3);
}

proof fn lemma_route_size(s: Seq<char>)
    requires
        s == "SS_SIZE"@,
    ensures
        route_of(s) == Some(CommandView::Size),
{
    reveal_strlit("SS_SIZE");
    reveal_strlit("SS_VALIDATE");
    reveal_strlit("SS_ANALYZE");
    reveal_strlit("SS_REPORT");
    reveal_strlit("SS_REPORT_HTML");
    reveal_strlit("SS_MULTIRP");
    reveal_strlit("SS_PROFILE");
    assert(has_prefix(s, "SS_SIZE"@)) by {
        assert(s.take(s.len() as int) =~= s);
    }
    lemma_ss_prefix(s, "SS_SIZE"@);
    lemma_prefix_differs(s, "SS_SIZE"@, "SS_VALIDATE"@, 3);
    lemma_prefix_differs(s, "SS_SIZE"@, "SS_ANALYZE"@, 3);
    lemma_prefix_differs(s, "SS_SIZE"@, "SS_REPORT"@, 3);
    lemma_prefix_differs(s, "SS_SIZE"@, "SS_REPORT_HTML"@, 3);
    lemma_prefix_differs(s, "SS_SIZE"@, "SS_MULTIRP"@, 3);
    lemma_prefix_differs(s, "SS_SIZE"@, "SS_PROFILE"@, 3);
}

proof fn lemma_route_applytc(s: Seq<char>)
    requires
        s == "SS_APPLYTC"@,
    ensures
        route_of(s) == Some(CommandView::ApplyTc),
{
    reveal_strlit("SS_APPLYTC");
    reveal_strlit("SS_VALIDATE");
    reveal_strlit("SS_ANALYZE");
    reveal_strlit("SS_REPORT");
    reveal_strlit("SS_REPORT_HTML");
    reveal_strlit("SS_MULTIRP");
    reveal_strlit("SS_PROFILE");
    reveal_strlit("SS_SIZE");
    assert(has_prefix(s, "SS_APPLYTC"@)) by {
        assert(s.take(s.len() as int) =~= s);
    }
    lemma_ss_prefix(s, "SS_APPLYTC"@);
    lemma_prefix_differs(s, "SS_APPLYTC"@, "SS_VALIDATE"@, 3);
    lemma_prefix_differs(s, "SS_APPLYTC"@, "SS_ANALYZE"@, 4);
    lemma_prefix_differs(s, "SS_APPLYTC"@, "SS_REPORT"@, 3);
    lemma_prefix_differs(s, "SS_APPLYTC"@, "SS_REPORT_HTML"@, 3);
    lemma_prefix_differs(s, "SS_APPLYTC"@, "SS_MULTIRP"@, 3);
    lemma_prefix_differs(s, "SS_APPLYTC"@, "SS_PROFILE"@, 3);
    lemma_prefix_differs(s, "SS_APPLYTC"@, "SS_SIZE"@, 3);
}

proof fn lemma_route_license(s: Seq<char>)
    requires
        s == "SS_LICENSE"@,
    ensures
        route_of(s) == Some(CommandView::License),
{
    reveal_strlit("SS_LICENSE");
    reveal_strlit("SS_VALIDATE");
    reveal_strlit("SS_ANALYZE");
    reveal_strlit("SS_REPORT");
    reveal_strlit("SS_REPORT_HTML");
    reveal_strlit("SS_MULTIRP");
    reveal_strlit("SS_PROFILE");
    reveal_strlit("SS_SIZE");
    reveal_strlit("SS_APPLYTC");
    assert(has_prefix(s, "SS_LICENSE"@)) by {
        assert(s.take(s.len() as int) =~= s);
    }
    lemma_ss_prefix(s, "SS_LICENSE"@);
    lemma_prefix_differs(s, "SS_LICENSE"@, "SS_VALIDATE"@, 3);
    lemma_prefix_differs(s, "SS_LICENSE"@, "SS_ANALYZE"@, 3);
    lemma_prefix_differs(s, "SS_LICENSE"@, "SS_REPORT"@, 3);
    lemma_prefix_differs(s, "SS_LICENSE"@, "SS_REPORT_HTML"@, 3);
    lemma_prefix_differs(s, "SS_LICENSE"@, "SS_MULTIRP"@, 3);
    lemma_prefix_differs(s, "SS_LICENSE"@, "SS_PROFILE"@, 3);
    lemma_prefix_differs(s, "SS_LICENSE"@, "SS_SIZE"@, 3);
    lemma_prefix_differs(s, "SS_LICENSE"@, "SS_APPLYTC"@, 3);
}

proof fn lemma_route_activate_alone(s: Seq<char>)
    requires
        s == "SS_ACTIVATE"@,
    ensures
        route_of(s) == Some(CommandView::Activate(arg_or_empty(s))),
{
    reveal_strlit("SS_ACTIVATE");
    reveal_strlit("SS_VALIDATE");
    reveal_strlit("SS_ANALYZE");
    reveal_strlit("SS_REPORT");
    reveal_strlit("SS_REPORT_HTML");
    reveal_strlit("SS_MULTIRP");
    reveal_strlit("SS_PROFILE");
    reveal_strlit("SS_SIZE");
    reveal_strlit("SS_APPLYTC");
    reveal_strlit("SS_LICENSE");
    assert(has_prefix(s, "SS_ACTIVATE"@)) by {
        assert(s.take(s.len() as int) =~= s);
    }
    lemma_ss_prefix(s, "SS_ACTIVATE"@);
    lemma_prefix_differs(s, "SS_ACTIVATE"@, "SS_VALIDATE"@, 3);
    lemma_prefix_differs(s, "SS_ACTIVATE"@, "SS_ANALYZE"@, 4);
    lemma_prefix_differs(s, "SS_ACTIVATE"@, "SS_REPORT"@, 3);
    lemma_prefix_differs(s, "SS_ACTIVATE"@, "SS_REPORT_HTML"@, 3);
    lemma_prefix_differs(s, "SS_ACTIVATE"@, "SS_MULTIRP"@, 3);
    lemma_prefix_differs(s, "SS_ACTIVATE"@, "SS_PROFILE"@, 3);
    lemma_prefix_differs(s, "SS_ACTIVATE"@, "SS_SIZE"@, 3);
    lemma_prefix_differs(s, "SS_ACTIVATE"@, "SS_APPLYTC"@, 4);
    lemma_prefix_differs(s, "SS_ACTIVATE"@, "SS_LICENSE"@, 3);
}

proof fn lemma_route_activate_args(s: Seq<char>)
    requires
        has_prefix(s, "SS_ACTIVATE "@),
    ensures
        route_of(s) == Some(CommandView::Activate(arg_or_empty(s))),
{
    reveal_strlit("SS_ACTIVATE ");
    reveal_strlit("SS_VALIDATE");
    reveal_strlit("SS_ANALYZE");
    reveal_strlit("SS_REPORT");
    reveal_strlit("SS_REPORT_HTML");
    reveal_strlit("SS_MULTIRP");
    reveal_strlit("SS_PROFILE");
    reveal_strlit("SS_SIZE");
    reveal_strlit("SS_APPLYTC");
    reveal_strlit("SS_LICENSE");
    reveal_strlit("SS_ACTIVATE");
    lemma_ss_prefix(s, "SS_ACTIVATE "@);
    lemma_prefix_differs(s, "SS_ACTIVATE "@, "SS_VALIDATE"@, 3);
    lemma_prefix_differs(s, "SS_ACTIVATE "@, "SS_ANALYZE"@, 4);
    lemma_prefix_differs(s, "SS_ACTIVATE "@, "SS_REPORT"@, 3);
    lemma_prefix_differs(s, "SS_ACTIVATE "@, "SS_REPORT_HTML"@, 3);
    lemma_prefix_differs(s, "SS_ACTIVATE "@, "SS_MULTIRP"@, 3);
    lemma_prefix_differs(s, "SS_ACTIVATE "@, "SS_PROFILE"@, 3);
    lemma_prefix_differs(s, "SS_ACTIVATE "@, "SS_SIZE"@, 3);
    lemma_prefix_differs(s, "SS_ACTIVATE "@, "SS_APPLYTC"@, 4);
    lemma_prefix_differs(s, "SS_ACTIVATE "@, "SS_LICENSE"@, 3);
    lemma_longer(s, "SS_ACTIVATE "@, "SS_ACTIVATE"@);
}

proof fn lemma_route_params_alone(s: Seq<char>)
    requires
        s == "SS_PARAMS"@,
    ensures
        route_of(s) == Some(CommandView::Params(trim(s.skip(9)))),
{
    reveal_strlit("SS_PARAMS");
    reveal_strlit("SS_VALIDATE");
    reveal_strlit("SS_ANALYZE");
    reveal_strlit("SS_REPORT");
    reveal_strlit("SS_REPORT_HTML");
    reveal_strlit("SS_MULTIRP");
    reveal_strlit("SS_PROFILE");
    reveal_strlit("SS_SIZE");
    reveal_strlit("SS_APPLYTC");
    reveal_strlit("SS_LICENSE");
    reveal_strlit("SS_ACTIVATE");
    reveal_strlit("SS_ACTIVATE ");
    assert(has_prefix(s, "SS_PARAMS"@)) by {
        assert(s.take(s.len() as int) =~= s);
    }
    lemma_ss_prefix(s, "SS_PARAMS"@);
    lemma_prefix_differs(s, "SS_PARAMS"@, "SS_VALIDATE"@, 3);
    lemma_prefix_differs(s, "SS_PARAMS"@, "SS_ANALYZE"@, 3);
    lemma_prefix_differs(s, "SS_PARAMS"@, "SS_REPORT"@, 3);
    lemma_prefix_differs(s, "SS_PARAMS"@, "SS_REPORT_HTML"@, 3);
    lemma_prefix_differs(s, "SS_PARAMS"@, "SS_MULTIRP"@, 3);
    lemma_prefix_differs(s, "SS_PARAMS"@, "SS_PROFILE"@, 4);
    lemma_prefix_differs(s, "SS_PARAMS"@, "SS_SIZE"@, 3);
    lemma_prefix_differs(s, "SS_PARAMS"@, "SS_APPLYTC"@, 3);
    lemma_prefix_differs(s, "SS_PARAMS"@, "SS_LICENSE"@, 3);
    lemma_prefix_differs(s, "SS_PARAMS"@, "SS_ACTIVATE"@, 3);
    lemma_prefix_differs(s, "SS_PARAMS"@, "SS_ACTIVATE "@, 3);
}

proof fn lemma_route_params_args(s: Seq<char>)
    requires
        has_prefix(s, "SS_PARAMS "@),
    ensures
        route_of(s) == Some(CommandView::Params(trim(s.skip(9)))),
{
    reveal_strlit("SS_PARAMS ");
    reveal_strlit("SS_VALIDATE");
    reveal_strlit("SS_ANALYZE");
    reveal_strlit("SS_REPORT");
    reveal_strlit("SS_REPORT_HTML");
    reveal_strlit("SS_MULTIRP");
    reveal_strlit("SS_PROFILE");
    reveal_strlit("SS_SIZE");
    reveal_strlit("SS_APPLYTC");
    reveal_strlit("SS_LICENSE");
    reveal_strlit("SS_ACTIVATE");
    reveal_strlit("SS_ACTIVATE ");
    reveal_strlit("SS_PARAMS");
    lemma_ss_prefix(s, "SS_PARAMS "@);
    lemma_prefix_differs(s, "SS_PARAMS "@, "SS_VALIDATE"@, 3);
    lemma_prefix_differs(s, "SS_PARAMS "@, "SS_ANALYZE"@, 3);
    lemma_prefix_differs(s, "SS_PARAMS "@, "SS_REPORT"@, 3);
    lemma_prefix_differs(s, "SS_PARAMS "@, "SS_REPORT_HTML"@, 3);
    lemma_prefix_differs(s, "SS_PARAMS "@, "SS_MULTIRP"@, 3);
    lemma_prefix_differs(s, "SS_PARAMS "@, "SS_PROFILE"@, 4);
    lemma_prefix_differs(s, "SS_PARAMS "@, "SS_SIZE"@, 3);
    lemma_prefix_differs(s, "SS_PARAMS "@, "SS_APPLYTC"@, 3);
    lemma_prefix_differs(s, "SS_PARAMS "@, "SS_LICENSE"@, 3);
    lemma_prefix_differs(s, "SS_PARAMS "@, "SS_ACTIVATE"@, 3);
    lemma_prefix_differs(s, "SS_PARAMS "@, "SS_ACTIVATE "@, 3);
    lemma_longer(s, "SS_PARAMS "@, "SS_PARAMS"@);
}

proof fn lemma_route_landxml_alone(s: Seq<char>)
    requires
        s == "SS_LANDXML"@,
    ensures
        route_of(s) == Some(CommandView::ImportXmlHint),
{
    reveal_strlit("SS_LANDXML");
    reveal_strlit("SS_VALIDATE");
    reveal_strlit("SS_ANALYZE");
    reveal_strlit("SS_REPORT");
    reveal_strlit("SS_REPORT_HTML");
    reveal_strlit("SS_MULTIRP");
    reveal_strlit("SS_PROFILE");
    reveal_strlit("SS_SIZE");
    reveal_strlit("SS_APPLYTC");
    reveal_strlit("SS_LICENSE");
    reveal_strlit("SS_ACTIVATE");
    reveal_strlit("SS_ACTIVATE ");
    reveal_strlit("SS_PARAMS");
    reveal_strlit("SS_PARAMS ");
    assert(has_prefix(s, "SS_LANDXML"@)) by {
        assert(s.take(s.len() as int) =~= s);
    }
    lemma_ss_prefix(s, "SS_LANDXML"@);
    lemma_prefix_differs(s, "SS_LANDXML"@, "SS_VALIDATE"@, 3);
    lemma_prefix_differs(s, "SS_LANDXML"@, "SS_ANALYZE"@, 3);
    lemma_prefix_differs(s, "SS_LANDXML"@, "SS_REPORT"@, 3);
    lemma_prefix_differs(s, "SS_LANDXML"@, "SS_REPORT_HTML"@, 3);
    lemma_prefix_differs(s, "SS_LANDXML"@, "SS_MULTIRP"@, 3);
    lemma_prefix_differs(s, "SS_LANDXML"@, "SS_PROFILE"@, 3);
    lemma_prefix_differs(s, "SS_LANDXML"@, "SS_SIZE"@, 3);
    lemma_prefix_differs(s, "SS_LANDXML"@, "SS_APPLYTC"@, 3);
    lemma_prefix_differs(s, "SS_LANDXML"@, "SS_LICENSE"@, 4);
    lemma_prefix_differs(s, "SS_LANDXML"@, "SS_ACTIVATE"@, 3);
    lemma_prefix_differs(s, "SS_LANDXML"@, "SS_ACTIVATE "@, 3);
    lemma_prefix_differs(s, "SS_LANDXML"@, "SS_PARAMS"@, 3);
    lemma_prefix_differs(s, "SS_LANDXML"@, "SS_PARAMS "@, 3);
}

proof fn lemma_route_importxml_alone(s: Seq<char>)
    requires
        s == "SS_IMPORTXML"@,
    ensures
        route_of(s) == Some(CommandView::ImportXmlHint),
{
    reveal_strlit("SS_IMPORTXML");
    reveal_strlit("SS_VALIDATE");
    reveal_strlit("SS_ANALYZE");
    reveal_strlit("SS_REPORT");
    reveal_strlit("SS_REPORT_HTML");
    reveal_strlit("SS_MULTIRP");
    reveal_strlit("SS_PROFILE");
    reveal_strlit("SS_SIZE");
    reveal_strlit("SS_APPLYTC");
    reveal_strlit("SS_LICENSE");
    reveal_strlit("SS_ACTIVATE");
    reveal_strlit("SS_ACTIVATE ");
    reveal_strlit("SS_PARAMS");
    reveal_strlit("SS_PARAMS ");
    reveal_strlit("SS_LANDXML");
    assert(has_prefix(s, "SS_IMPORTXML"@)) by {
        assert(s.take(s.len() as int) =~= s);
    }
    lemma_ss_prefix(s, "SS_IMPORTXML"@);
    lemma_prefix_differs(s, "SS_IMPORTXML"@, "SS_VALIDATE"@, 3);
    lemma_prefix_differs(s, "SS_IMPORTXML"@, "SS_ANALYZE"@, 3);
    lemma_prefix_differs(s, "SS_IMPORTXML"@, "SS_REPORT"@, 3);
    lemma_prefix_differs(s, "SS_IMPORTXML"@, "SS_REPORT_HTML"@, 3);
    lemma_prefix_differs(s, "SS_IMPORTXML"@, "SS_MULTIRP"@, 3);
    lemma_prefix_differs(s, "SS_IMPORTXML"@, "SS_PROFILE"@, 3);
    lemma_prefix_differs(s, "SS_IMPORTXML"@, "SS_SIZE"@, 3);
    lemma_prefix_differs(s, "SS_IMPORTXML"@, "SS_APPLYTC"@, 3);
    lemma_prefix_differs(s, "SS_IMPORTXML"@, "SS_LICENSE"@, 3);
    lemma_prefix_differs(s, "SS_IMPORTXML"@, "SS_ACTIVATE"@, 3);
    lemma_prefix_differs(s, "SS_IMPORTXML"@, "SS_ACTIVATE "@, 3);
    lemma_prefix_differs(s, "SS_IMPORTXML"@, "SS_PARAMS"@, 3);
    lemma_prefix_differs(s, "SS_IMPORTXML"@, "SS_PARAMS "@, 3);
    lemma_prefix_differs(s, "SS_IMPORTXML"@, "SS_LANDXML"@, 3);
}

proof fn lemma_route_landxml_args(s: Seq<char>)
    requires
        has_prefix(s, "SS_LANDXML "@),
    ensures
        route_of(s) == (match arg_of(s) { Some(p) => Some(CommandView::ImportXml(p)), None => Some(CommandView::ImportXmlMissingPath) }),
{
    reveal_strlit("SS_LANDXML ");
    reveal_strlit("SS_VALIDATE");
    reveal_strlit("SS_ANALYZE");
    reveal_strlit("SS_REPORT");
    reveal_strlit("SS_REPORT_HTML");
    reveal_strlit("SS_MULTIRP");
    reveal_strlit("SS_PROFILE");
    reveal_strlit("SS_SIZE");
    reveal_strlit("SS_APPLYTC");
    reveal_strlit("SS_LICENSE");
    reveal_strlit("SS_ACTIVATE");
    reveal_strlit("SS_ACTIVATE ");
    reveal_strlit("SS_PARAMS");
    reveal_strlit("SS_PARAMS ");
    reveal_strlit("SS_LANDXML");
    reveal_strlit("SS_IMPORTXML");
    lemma_ss_prefix(s, "SS_LANDXML "@);
    lemma_prefix_differs(s, "SS_LANDXML "@, "SS_VALIDATE"@, 3);
    lemma_prefix_differs(s, "SS_LANDXML "@, "SS_ANALYZE"@, 3);
    lemma_prefix_differs(s, "SS_LANDXML "@, "SS_REPORT"@, 3);
    lemma_prefix_differs(s, "SS_LANDXML "@, "SS_REPORT_HTML"@, 3);
    lemma_prefix_differs(s, "SS_LANDXML "@, "SS_MULTIRP"@, 3);
    lemma_prefix_differs(s, "SS_LANDXML "@, "SS_PROFILE"@, 3);
    lemma_prefix_differs(s, "SS_LANDXML "@, "SS_SIZE"@, 3);
    lemma_prefix_differs(s, "SS_LANDXML "@, "SS_APPLYTC"@, 3);
    lemma_prefix_differs(s, "SS_LANDXML "@, "SS_LICENSE"@, 4);
    lemma_prefix_differs(s, "SS_LANDXML "@, "SS_ACTIVATE"@, 3);
    lemma_prefix_differs(s, "SS_LANDXML "@, "SS_ACTIVATE "@, 3);
    lemma_prefix_differs(s, "SS_LANDXML "@, "SS_PARAMS"@, 3);
    lemma_prefix_differs(s, "SS_LANDXML "@, "SS_PARAMS "@, 3);
    lemma_longer(s, "SS_LANDXML "@, "SS_LANDXML"@);
    lemma_prefix_differs(s, "SS_LANDXML "@, "SS_IMPORTXML"@, 3);
}

proof fn lemma_route_importxml_args(s: Seq<char>)
    requires
        has_prefix(s, "SS_IMPORTXML "@),
    ensures
        route_of(s) == (match arg_of(s) { Some(p) => Some(CommandView::ImportXml(p)), None => Some(CommandView::ImportXmlMissingPath) }),
{
    reveal_strlit("SS_IMPORTXML ");
    reveal_strlit("SS_VALIDATE");
    reveal_strlit("SS_ANALYZE");
    reveal_strlit("SS_REPORT");
    reveal_strlit("SS_REPORT_HTML");
    reveal_strlit("SS_MULTIRP");
    reveal_strlit("SS_PROFILE");
    reveal_strlit("SS_SIZE");
    reveal_strlit("SS_APPLYTC");
    reveal_strlit("SS_LICENSE");
    reveal_strlit("SS_ACTIVATE");
    reveal_strlit("SS_ACTIVATE ");
    reveal_strlit("SS_PARAMS");
    reveal_strlit("SS_PARAMS ");
    reveal_strlit("SS_LANDXML");
    reveal_strlit("SS_IMPORTXML");
    reveal_strlit("SS_LANDXML ");
    lemma_ss_prefix(s, "SS_IMPORTXML "@);
    lemma_prefix_differs(s, "SS_IMPORTXML "@, "SS_VALIDATE"@, 3);
    lemma_prefix_differs(s, "SS_IMPORTXML "@, "SS_ANALYZE"@, 3);
    lemma_prefix_differs(s, "SS_IMPORTXML "@, "SS_REPORT"@, 3);
    lemma_prefix_differs(s, "SS_IMPORTXML "@, "SS_REPORT_HTML"@, 3);
    lemma_prefix_differs(s, "SS_IMPORTXML "@, "SS_MULTIRP"@, 3);
    lemma_prefix_differs(s, "SS_IMPORTXML "@, "SS_PROFILE"@, 3);
    lemma_prefix_differs(s, "SS_IMPORTXML "@, "SS_SIZE"@, 3);
    lemma_prefix_differs(s, "SS_IMPORTXML "@, "SS_APPLYTC"@, 3);
    lemma_prefix_differs(s, "SS_IMPORTXML "@, "SS_LICENSE"@, 3);
    lemma_prefix_differs(s, "SS_IMPORTXML "@, "SS_ACTIVATE"@, 3);
    lemma_prefix_differs(s, "SS_IMPORTXML "@, "SS_ACTIVATE "@, 3);
    lemma_prefix_differs(s, "SS_IMPORTXML "@, "SS_PARAMS"@, 3);
    lemma_prefix_differs(s, "SS_IMPORTXML "@, "SS_PARAMS "@, 3);
    lemma_prefix_differs(s, "SS_IMPORTXML "@, "SS_LANDXML"@, 3);
    lemma_longer(s, "SS_IMPORTXML "@, "SS_IMPORTXML"@);
    lemma_prefix_differs(s, "SS_IMPORTXML "@, "SS_LANDXML "@, 3);
}

proof fn lemma_route_pipe_alone(s: Seq<char>)
    requires
        s == "SS_PIPE"@,
    ensures
        route_of(s) == Some(CommandView::PipeInteractive),
{
    reveal_strlit("SS_PIPE");
    reveal_strlit("SS_VALIDATE");
    reveal_strlit("SS_ANALYZE");
    reveal_strlit("SS_REPORT");
    reveal_strlit("SS_REPORT_HTML");
    reveal_strlit("SS_MULTIRP");
    reveal_strlit("SS_PROFILE");
    reveal_strlit("SS_SIZE");
    reveal_strlit("SS_APPLYTC");
    reveal_strlit("SS_LICENSE");
    reveal_strlit("SS_ACTIVATE");
    reveal_strlit("SS_ACTIVATE ");
    reveal_strlit("SS_PARAMS");
    reveal_strlit("SS_PARAMS ");
    reveal_strlit("SS_LANDXML");
    reveal_strlit("SS_IMPORTXML");
    reveal_strlit("SS_LANDXML ");
    reveal_strlit("SS_IMPORTXML ");
    reveal_strlit("SS_INLET");
    reveal_strlit("SS_INLET ");
    reveal_strlit("SS_JUNCTION");
    reveal_strlit("SS_JUNCTION ");
    reveal_strlit("SS_OUTFALL");
    reveal_strlit("SS_OUTFALL ");
    assert(has_prefix(s, "SS_PIPE"@)) by {
        assert(s.take(s.len() as int) =~= s);
    }
    lemma_ss_prefix(s, "SS_PIPE"@);
    lemma_prefix_differs(s, "SS_PIPE"@, "SS_VALIDATE"@, 3);
    lemma_prefix_differs(s, "SS_PIPE"@, "SS_ANALYZE"@, 3);
    lemma_prefix_differs(s, "SS_PIPE"@, "SS_REPORT"@, 3);
    lemma_prefix_differs(s, "SS_PIPE"@, "SS_REPORT_HTML"@, 3);
    lemma_prefix_differs(s, "SS_PIPE"@, "SS_MULTIRP"@, 3);
    lemma_prefix_differs(s, "SS_PIPE"@, "SS_PROFILE"@, 4);
    lemma_prefix_differs(s, "SS_PIPE"@, "SS_SIZE"@, 3);
    lemma_prefix_differs(s, "SS_PIPE"@, "SS_APPLYTC"@, 3);
    lemma_prefix_differs(s, "SS_PIPE"@, "SS_LICENSE"@, 3);
    lemma_prefix_differs(s, "SS_PIPE"@, "SS_ACTIVATE"@, 3);
    lemma_prefix_differs(s, "SS_PIPE"@, "SS_ACTIVATE "@, 3);
    lemma_prefix_differs(s, "SS_PIPE"@, "SS_PARAMS"@, 4);
    lemma_prefix_differs(s, "SS_PIPE"@, "SS_PARAMS "@, 4);
    lemma_prefix_differs(s, "SS_PIPE"@, "SS_LANDXML"@, 3);
    lemma_prefix_differs(s, "SS_PIPE"@, "SS_IMPORTXML"@, 3);
    lemma_prefix_differs(s, "SS_PIPE"@, "SS_LANDXML "@, 3);
    lemma_prefix_differs(s, "SS_PIPE"@, "SS_IMPORTXML "@, 3);
    lemma_prefix_differs(s, "SS_PIPE"@, "SS_INLET"@, 3);
    lemma_prefix_differs(s, "SS_PIPE"@, "SS_INLET "@, 3);
    lemma_prefix_differs(s, "SS_PIPE"@, "SS_JUNCTION"@, 3);
    lemma_prefix_differs(s, "SS_PIPE"@, "SS_JUNCTION "@, 3);
    lemma_prefix_differs(s, "SS_PIPE"@, "SS_OUTFALL"@, 3);
    lemma_prefix_differs(s, "SS_PIPE"@, "SS_OUTFALL "@, 3);
}

proof fn lemma_route_pipe_args(s: Seq<char>)
    requires
        has_prefix(s, "SS_PIPE "@),
    ensures
        route_of(s) == Some(CommandView::Pipe(arg_or_empty(s))),
{
    reveal_strlit("SS_PIPE ");
    reveal_strlit("SS_VALIDATE");
    reveal_strlit("SS_ANALYZE");
    reveal_strlit("SS_REPORT");
    reveal_strlit("SS_REPORT_HTML");
    reveal_strlit("SS_MULTIRP");
    reveal_strlit("SS_PROFILE");
    reveal_strlit("SS_SIZE");
    reveal_strlit("SS_APPLYTC");
    reveal_strlit("SS_LICENSE");
    reveal_strlit("SS_ACTIVATE");
    reveal_strlit("SS_ACTIVATE ");
    reveal_strlit("SS_PARAMS");
    reveal_strlit("SS_PARAMS ");
    reveal_strlit("SS_LANDXML");
    reveal_strlit("SS_IMPORTXML");
    reveal_strlit("SS_LANDXML ");
    reveal_strlit("SS_IMPORTXML ");
    reveal_strlit("SS_INLET");
    reveal_strlit("SS_INLET ");
    reveal_strlit("SS_JUNCTION");
    reveal_strlit("SS_JUNCTION ");
    reveal_strlit("SS_OUTFALL");
    reveal_strlit("SS_OUTFALL ");
    reveal_strlit("SS_PIPE");
    lemma_ss_prefix(s, "SS_PIPE "@);
    lemma_prefix_differs(s, "SS_PIPE "@, "SS_VALIDATE"@, 3);
    lemma_prefix_differs(s, "SS_PIPE "@, "SS_ANALYZE"@, 3);
    lemma_prefix_differs(s, "SS_PIPE "@, "SS_REPORT"@, 3);
    lemma_prefix_differs(s, "SS_PIPE "@, "SS_REPORT_HTML"@, 3);
    lemma_prefix_differs(s, "SS_PIPE "@, "SS_MULTIRP"@, 3);
    lemma_prefix_differs(s, "SS_PIPE "@, "SS_PROFILE"@, 4);
    lemma_prefix_differs(s, "SS_PIPE "@, "SS_SIZE"@, 3);
    lemma_prefix_differs(s, "SS_PIPE "@, "SS_APPLYTC"@, 3);
    lemma_prefix_differs(s, "SS_PIPE "@, "SS_LICENSE"@, 3);
    lemma_prefix_differs(s, "SS_PIPE "@, "SS_ACTIVATE"@, 3);
    lemma_prefix_differs(s, "SS_PIPE "@, "SS_ACTIVATE "@, 3);
    lemma_prefix_differs(s, "SS_PIPE "@, "SS_PARAMS"@, 4);
    lemma_prefix_differs(s, "SS_PIPE "@, "SS_PARAMS "@, 4);
    lemma_prefix_differs(s, "SS_PIPE "@, "SS_LANDXML"@, 3);
    lemma_prefix_differs(s, "SS_PIPE "@, "SS_IMPORTXML"@, 3);
    lemma_prefix_differs(s, "SS_PIPE "@, "SS_LANDXML "@, 3);
    lemma_prefix_differs(s, "SS_PIPE "@, "SS_IMPORTXML "@, 3);
    lemma_prefix_differs(s, "SS_PIPE "@, "SS_INLET"@, 3);
    lemma_prefix_differs(s, "SS_PIPE "@, "SS_INLET "@, 3);
    lemma_prefix_differs(s, "SS_PIPE "@, "SS_JUNCTION"@, 3);
    lemma_prefix_differs(s, "SS_PIPE "@, "SS_JUNCTION "@, 3);
    lemma_prefix_differs(s, "SS_PIPE "@, "SS_OUTFALL"@, 3);
    lemma_prefix_differs(s, "SS_PIPE "@, "SS_OUTFALL "@, 3);
    lemma_longer(s, "SS_PIPE "@, "SS_PIPE"@);
}

proof fn lemma_route_edit_alone(s: Seq<char>)
    requires
        s == "SS_EDIT"@,
    ensures
        route_of(s) == Some(CommandView::EditUsage),
{
    reveal_strlit("SS_EDIT");
    reveal_strlit("SS_VALIDATE");
    reveal_strlit("SS_ANALYZE");
    reveal_strlit("SS_REPORT");
    reveal_strlit("SS_REPORT_HTML");
    reveal_strlit("SS_MULTIRP");
    reveal_strlit("SS_PROFILE");
    reveal_strlit("SS_SIZE");
    reveal_strlit("SS_APPLYTC");
    reveal_strlit("SS_LICENSE");
    reveal_strlit("SS_ACTIVATE");
    reveal_strlit("SS_ACTIVATE ");
    reveal_strlit("SS_PARAMS");
    reveal_strlit("SS_PARAMS ");
    reveal_strlit("SS_LANDXML");
    reveal_strlit("SS_IMPORTXML");
    reveal_strlit("SS_LANDXML ");
    reveal_strlit("SS_IMPORTXML ");
    reveal_strlit("SS_INLET");
    reveal_strlit("SS_INLET ");
    reveal_strlit("SS_JUNCTION");
    reveal_strlit("SS_JUNCTION ");
    reveal_strlit("SS_OUTFALL");
    reveal_strlit("SS_OUTFALL ");
    reveal_strlit("SS_PIPE");
    reveal_strlit("SS_PIPE ");
    assert(has_prefix(s, "SS_EDIT"@)) by {
        assert(s.take(s.len() as int) =~= s);
    }
    lemma_ss_prefix(s, "SS_EDIT"@);
    lemma_prefix_differs(s, "SS_EDIT"@, "SS_VALIDATE"@, 3);
    lemma_prefix_differs(s, "SS_EDIT"@, "SS_ANALYZE"@, 3);
    lemma_prefix_differs(s, "SS_EDIT"@, "SS_REPORT"@, 3);
    lemma_prefix_differs(s, "SS_EDIT"@, "SS_REPORT_HTML"@, 3);
    lemma_prefix_differs(s, "SS_EDIT"@, "SS_MULTIRP"@, 3);
    lemma_prefix_differs(s, "SS_EDIT"@, "SS_PROFILE"@, 3);
    lemma_prefix_differs(s, "SS_EDIT"@, "SS_SIZE"@, 3);
    lemma_prefix_differs(s, "SS_EDIT"@, "SS_APPLYTC"@, 3);
    lemma_prefix_differs(s, "SS_EDIT"@, "SS_LICENSE"@, 3);
    lemma_prefix_differs(s, "SS_EDIT"@, "SS_ACTIVATE"@, 3);
    lemma_prefix_differs(s, "SS_EDIT"@, "SS_ACTIVATE "@, 3);
    lemma_prefix_differs(s, "SS_EDIT"@, "SS_PARAMS"@, 3);
    lemma_prefix_differs(s, "SS_EDIT"@, "SS_PARAMS "@, 3);
    lemma_prefix_differs(s, "SS_EDIT"@, "SS_LANDXML"@, 3);
    lemma_prefix_differs(s, "SS_EDIT"@, "SS_IMPORTXML"@, 3);
    lemma_prefix_differs(s, "SS_EDIT"@, "SS_LANDXML "@, 3);
    lemma_prefix_differs(s, "SS_EDIT"@, "SS_IMPORTXML "@, 3);
    lemma_prefix_differs(s, "SS_EDIT"@, "SS_INLET"@, 3);
    lemma_prefix_differs(s, "SS_EDIT"@, "SS_INLET "@, 3);
    lemma_prefix_differs(s, "SS_EDIT"@, "SS_JUNCTION"@, 3);
    lemma_prefix_differs(s, "SS_EDIT"@, "SS_JUNCTION "@, 3);
    lemma_prefix_differs(s, "SS_EDIT"@, "SS_OUTFALL"@, 3);
    lemma_prefix_differs(s, "SS_EDIT"@, "SS_OUTFALL "@, 3);
    lemma_prefix_differs(s, "SS_EDIT"@, "SS_PIPE"@, 3);
    lemma_prefix_differs(s, "SS_EDIT"@, "SS_PIPE "@, 3);
}

proof fn lemma_route_edit_args(s: Seq<char>)
    requires
        has_prefix(s, "SS_EDIT "@),
    ensures
        route_of(s) == Some(CommandView::Edit(arg_or_empty(s))),
{
    reveal_strlit("SS_EDIT ");
    reveal_strlit("SS_VALIDATE");
    reveal_strlit("SS_ANALYZE");
    reveal_strlit("SS_REPORT");
    reveal_strlit("SS_REPORT_HTML");
    reveal_strlit("SS_MULTIRP");
    reveal_strlit("SS_PROFILE");
    reveal_strlit("SS_SIZE");
    reveal_strlit("SS_APPLYTC");
    reveal_strlit("SS_LICENSE");
    reveal_strlit("SS_ACTIVATE");
    reveal_strlit("SS_ACTIVATE ");
    reveal_strlit("SS_PARAMS");
    reveal_strlit("SS_PARAMS ");
    reveal_strlit("SS_LANDXML");
    reveal_strlit("SS_IMPORTXML");
    reveal_strlit("SS_LANDXML ");
    reveal_strlit("SS_IMPORTXML ");
    reveal_strlit("SS_INLET");
    reveal_strlit("SS_INLET ");
    reveal_strlit("SS_JUNCTION");
    reveal_strlit("SS_JUNCTION ");
    reveal_strlit("SS_OUTFALL");
    reveal_strlit("SS_OUTFALL ");
    reveal_strlit("SS_PIPE");
    reveal_strlit("SS_PIPE ");
    reveal_strlit("SS_EDIT");
    lemma_ss_prefix(s, "SS_EDIT "@);
    lemma_prefix_differs(s, "SS_EDIT "@, "SS_VALIDATE"@, 3);
    lemma_prefix_differs(s, "SS_EDIT "@, "SS_ANALYZE"@, 3);
    lemma_prefix_differs(s, "SS_EDIT "@, "SS_REPORT"@, 3);
    lemma_prefix_differs(s, "SS_EDIT "@, "SS_REPORT_HTML"@, 3);
    lemma_prefix_differs(s, "SS_EDIT "@, "SS_MULTIRP"@, 3);
    lemma_prefix_differs(s, "SS_EDIT "@, "SS_PROFILE"@, 3);
    lemma_prefix_differs(s, "SS_EDIT "@, "SS_SIZE"@, 3);
    lemma_prefix_differs(s, "SS_EDIT "@, "SS_APPLYTC"@, 3);
    lemma_prefix_differs(s, "SS_EDIT "@, "SS_LICENSE"@, 3);
    lemma_prefix_differs(s, "SS_EDIT "@, "SS_ACTIVATE"@, 3);
    lemma_prefix_differs(s, "SS_EDIT "@, "SS_ACTIVATE "@, 3);
    lemma_prefix_differs(s, "SS_EDIT "@, "SS_PARAMS"@, 3);
    lemma_prefix_differs(s, "SS_EDIT "@, "SS_PARAMS "@, 3);
    lemma_prefix_differs(s, "SS_EDIT "@, "SS_LANDXML"@, 3);
    lemma_prefix_differs(s, "SS_EDIT "@, "SS_IMPORTXML"@, 3);
    lemma_prefix_differs(s, "SS_EDIT "@, "SS_LANDXML "@, 3);
    lemma_prefix_differs(s, "SS_EDIT "@, "SS_IMPORTXML "@, 3);
    lemma_prefix_differs(s, "SS_EDIT "@, "SS_INLET"@, 3);
    lemma_prefix_differs(s, "SS_EDIT "@, "SS_INLET "@, 3);
    lemma_prefix_differs(s, "SS_EDIT "@, "SS_JUNCTION"@, 3);
    lemma_prefix_differs(s, "SS_EDIT "@, "SS_JUNCTION "@, 3);
    lemma_prefix_differs(s, "SS_EDIT "@, "SS_OUTFALL"@, 3);
    lemma_prefix_differs(s, "SS_EDIT "@, "SS_OUTFALL "@, 3);
    lemma_prefix_differs(s, "SS_EDIT "@, "SS_PIPE"@, 3);
    lemma_prefix_differs(s, "SS_EDIT "@, "SS_PIPE "@, 3);
    lemma_longer(s, "SS_EDIT "@, "SS_EDIT"@);
}

proof fn lemma_route_catchment(s: Seq<char>)
    requires
        s == "SS_CATCHMENT"@,
    ensures
        route_of(s) == Some(CommandView::CatchmentInfo),
{
    reveal_strlit("SS_CATCHMENT");
    reveal_strlit("SS_VALIDATE");
    reveal_strlit("SS_ANALYZE");
    reveal_strlit("SS_REPORT");
    reveal_strlit("SS_REPORT_HTML");
    reveal_strlit("SS_MULTIRP");
    reveal_strlit("SS_PROFILE");
    reveal_strlit("SS_SIZE");
    reveal_strlit("SS_APPLYTC");
    reveal_strlit("SS_LICENSE");
    reveal_strlit("SS_ACTIVATE");
    reveal_strlit("SS_ACTIVATE ");
    reveal_strlit("SS_PARAMS");
    reveal_strlit("SS_PARAMS ");
    reveal_strlit("SS_LANDXML");
    reveal_strlit("SS_IMPORTXML");
    reveal_strlit("SS_LANDXML ");
    reveal_strlit("SS_IMPORTXML ");
    reveal_strlit("SS_INLET");
    reveal_strlit("SS_INLET ");
    reveal_strlit("SS_JUNCTION");
    reveal_strlit("SS_JUNCTION ");
    reveal_strlit("SS_OUTFALL");
    reveal_strlit("SS_OUTFALL ");
    reveal_strlit("SS_PIPE");
    reveal_strlit("SS_PIPE ");
    reveal_strlit("SS_EDIT");
    reveal_strlit("SS_EDIT ");
    assert(has_prefix(s, "SS_CATCHMENT"@)) by {
        assert(s.take(s.len() as int) =~= s);
    }
    lemma_ss_prefix(s, "SS_CATCHMENT"@);
    lemma_prefix_differs(s, "SS_CATCHMENT"@, "SS_VALIDATE"@, 3);
    lemma_prefix_differs(s, "SS_CATCHMENT"@, "SS_ANALYZE"@, 3);
    lemma_prefix_differs(s, "SS_CATCHMENT"@, "SS_REPORT"@, 3);
    lemma_prefix_differs(s, "SS_CATCHMENT"@, "SS_REPORT_HTML"@, 3);
    lemma_prefix_differs(s, "SS_CATCHMENT"@, "SS_MULTIRP"@, 3);
    lemma_prefix_differs(s, "SS_CATCHMENT"@, "SS_PROFILE"@, 3);
    lemma_prefix_differs(s, "SS_CATCHMENT"@, "SS_SIZE"@, 3);
    lemma_prefix_differs(s, "SS_CATCHMENT"@, "SS_APPLYTC"@, 3);
    lemma_prefix_differs(s, "SS_CATCHMENT"@, "SS_LICENSE"@, 3);
    lemma_prefix_differs(s, "SS_CATCHMENT"@, "SS_ACTIVATE"@, 3);
    lemma_prefix_differs(s, "SS_CATCHMENT"@, "SS_ACTIVATE "@, 3);
    lemma_prefix_differs(s, "SS_CATCHMENT"@, "SS_PARAMS"@, 3);
    lemma_prefix_differs(s, "SS_CATCHMENT"@, "SS_PARAMS "@, 3);
    lemma_prefix_differs(s, "SS_CATCHMENT"@, "SS_LANDXML"@, 3);
    lemma_prefix_differs(s, "SS_CATCHMENT"@, "SS_IMPORTXML"@, 3);
    lemma_prefix_differs(s, "SS_CATCHMENT"@, "SS_LANDXML "@, 3);
    lemma_prefix_differs(s, "SS_CATCHMENT"@, "SS_IMPORTXML "@, 3);
    lemma_prefix_differs(s, "SS_CATCHMENT"@, "SS_INLET"@, 3);
    lemma_prefix_differs(s, "SS_CATCHMENT"@, "SS_INLET "@, 3);
    lemma_prefix_differs(s, "SS_CATCHMENT"@, "SS_JUNCTION"@, 3);
    lemma_prefix_differs(s, "SS_CATCHMENT"@, "SS_JUNCTION "@, 3);
    lemma_prefix_differs(s, "SS_CATCHMENT"@, "SS_OUTFALL"@, 3);
    lemma_prefix_differs(s, "SS_CATCHMENT"@, "SS_OUTFALL "@, 3);
    lemma_prefix_differs(s, "SS_CATCHMENT"@, "SS_PIPE"@, 3);
    lemma_prefix_differs(s, "SS_CATCHMENT"@, "SS_PIPE "@, 3);
    lemma_prefix_differs(s, "SS_CATCHMENT"@, "SS_EDIT"@, 3);
    lemma_prefix_differs(s, "SS_CATCHMENT"@, "SS_EDIT "@, 3);
}

/// Law: each command word routes to its own command: the one-word commands
/// (`SS_VALIDATE`, `SS_ANALYZE`, `SS_REPORT`, `SS_REPORT_HTML`, `SS_MULTIRP`,
/// `SS_PROFILE`, `SS_SIZE`, `SS_APPLYTC`, `SS_LICENSE`, `SS_CATCHMENT`) to
/// the command they name, and `SS_ACTIVATE`, `SS_PARAMS`, `SS_LANDXML` /
/// `SS_IMPORTXML`, `SS_PIPE` and `SS_EDIT`, alone or followed by a space, to
/// theirs with the rest of the line as its arguments.
pub proof fn law_command_words(s: Seq<char>)
    ensures
        s == "SS_VALIDATE"@ ==> route_of(s) == Some(CommandView::Validate),
        s == "SS_ANALYZE"@ ==> route_of(s) == Some(CommandView::Analyze),
        s == "SS_REPORT"@ ==> route_of(s) == Some(CommandView::Report),
        s == "SS_REPORT_HTML"@ ==> route_of(s) == Some(CommandView::ReportHtml),
        s == "SS_MULTIRP"@ ==> route_of(s) == Some(CommandView::MultiRp),
        s == "SS_PROFILE"@ ==> route_of(s) == Some(CommandView::Profile),
        s == "SS_SIZE"@ ==> route_of(s) == Some(CommandView::Size),
        s == "SS_APPLYTC"@ ==> route_of(s) == Some(CommandView::ApplyTc),
        s == "SS_LICENSE"@ ==> route_of(s) == Some(CommandView::License),
        s == "SS_ACTIVATE"@ ==> route_of(s) == Some(CommandView::Activate(arg_or_empty(s))),
        has_prefix(s, "SS_ACTIVATE "@) ==> route_of(s) == Some(CommandView::Activate(arg_or_empty(s))),
        s == "SS_PARAMS"@ ==> route_of(s) == Some(CommandView::Params(trim(s.skip(9)))),
        has_prefix(s, "SS_PARAMS "@) ==> route_of(s) == Some(CommandView::Params(trim(s.skip(9)))),
        s == "SS_LANDXML"@ ==> route_of(s) == Some(CommandView::ImportXmlHint),
        s == "SS_IMPORTXML"@ ==> route_of(s) == Some(CommandView::ImportXmlHint),
        has_prefix(s, "SS_LANDXML "@) ==> route_of(s) == (match arg_of(s) { Some(p) => Some(CommandView::ImportXml(p)), None => Some(CommandView::ImportXmlMissingPath) }),
        has_prefix(s, "SS_IMPORTXML "@) ==> route_of(s) == (match arg_of(s) { Some(p) => Some(CommandView::ImportXml(p)), None => Some(CommandView::ImportXmlMissingPath) }),
        s == "SS_PIPE"@ ==> route_of(s) == Some(CommandView::PipeInteractive),
        has_prefix(s, "SS_PIPE "@) ==> route_of(s) == Some(CommandView::Pipe(arg_or_empty(s))),
        s == "SS_EDIT"@ ==> route_of(s) == Some(CommandView::EditUsage),
        has_prefix(s, "SS_EDIT "@) ==> route_of(s) == Some(CommandView::Edit(arg_or_empty(s))),
        s == "SS_CATCHMENT"@ ==> route_of(s) == Some(CommandView::CatchmentInfo),
{
    if s == "SS_VALIDATE"@ {
        lemma_route_validate(s);
    }
    if s == "SS_ANALYZE"@ {
        lemma_route_analyze(s);
    }
    if s == "SS_REPORT"@ {
        lemma_route_report(s);
    }
    if s == "SS_REPORT_HTML"@ {
        lemma_route_report_html(s);
    }
    if s == "SS_MULTIRP"@ {
        lemma_route_multirp(s);
    }
    if s == "SS_PROFILE"@ {
        lemma_route_profile(s);
    }
    if s == "SS_SIZE"@ {
        lemma_route_size(s);
    }
    if s == "SS_APPLYTC"@ {
        lemma_route_applytc(s);
    }
    if s == "SS_LICENSE"@ {
        lemma_route_license(s);
    }
    if s == "SS_ACTIVATE"@ {
        lemma_route_activate_alone(s);
    }
    if has_prefix(s, "SS_ACTIVATE "@) {
        lemma_route_activate_args(s);
    }
    if s == "SS_PARAMS"@ {
        lemma_route_params_alone(s);
    }
    if has_prefix(s, "SS_PARAMS "@) {
        lemma_route_params_args(s);
    }
    if s == "SS_LANDXML"@ {
        lemma_route_landxml_alone(s);
    }
    if s == "SS_IMPORTXML"@ {
        lemma_route_importxml_alone(s);
    }
    if has_prefix(s, "SS_LANDXML "@) {
        lemma_route_landxml_args(s);
    }
    if has_prefix(s, "SS_IMPORTXML "@) {
        lemma_route_importxml_args(s);
    }
    if s == "SS_PIPE"@ {
        lemma_route_pipe_alone(s);
    }
    if has_prefix(s, "SS_PIPE "@) {
        lemma_route_pipe_args(s);
    }
    if s == "SS_EDIT"@ {
        lemma_route_edit_alone(s);
    }
    if has_prefix(s, "SS_EDIT "@) {
        lemma_route_edit_args(s);
    }
    if s == "SS_CATCHMENT"@ {
        lemma_route_catchment(s);
    }
}

} // verus!
