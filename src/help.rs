//! The help renderer: replays the extraction log into a usage line, an example
//! invocation, and listings of subcommands, arguments and options.
use vstd::prelude::*;
use vstd::string::*;

use crate::arg::ArgSpec;
use crate::args::{Metadata, RawArgs, Taken};
use crate::cmd::CmdSpec;
use crate::formatter::{bold_text, bold_underline_text, Formatter};
use crate::text::{debug_quote, debug_quoted, push_char, str_eq};

verus! {

/// `n` spaces.
pub open spec fn spaces(n: nat) -> Seq<char> {
    Seq::new(n, |_i: int| ' ')
}

/// `s` padded with spaces on the right to `width` characters.
pub open spec fn pad(s: Seq<char>, width: nat) -> Seq<char> {
    if s.len() < width {
        s + spaces((width - s.len()) as nat)
    } else {
        s
    }
}

/// The lines of `s` from position `i` on, the current line having begun at `start`.
pub open spec fn lines_from(s: Seq<char>, start: int, i: int) -> Seq<Seq<char>>
    decreases s.len() - i,
{
    if i >= s.len() {
        if start < s.len() {
            seq![s.subrange(start, s.len() as int)]
        } else {
            Seq::empty()
        }
    } else if s[i] == '\n' {
        seq![s.subrange(start, i)] + lines_from(s, i + 1, i + 1)
    } else {
        lines_from(s, start, i + 1)
    }
}

/// The lines of `s`, separated by `'\n'`; a final newline ends the last line
/// rather than starting an empty one.
pub open spec fn lines_of(s: Seq<char>) -> Seq<Seq<char>> {
    lines_from(s, 0, 0)
}

/// The lines of a doc text that are shown: all in full mode, else the first.
pub open spec fn doc_lines(full: bool, s: Seq<char>) -> Seq<Seq<char>> {
    if full || lines_of(s).len() <= 1 {
        lines_of(s)
    } else {
        lines_of(s).take(1)
    }
}

/// Each line indented by `offset` spaces and followed by `newline`.
pub open spec fn indented(lines: Seq<Seq<char>>, offset: nat, newline: Seq<char>) -> Seq<char>
    decreases lines.len(),
{
    if lines.len() == 0 {
        Seq::empty()
    } else {
        indented(lines.drop_last(), offset, newline) + spaces(offset) + lines.last() + newline
    }
}

/// Each line followed by a newline.
pub open spec fn terminated(lines: Seq<Seq<char>>) -> Seq<char>
    decreases lines.len(),
{
    if lines.len() == 0 {
        Seq::empty()
    } else {
        terminated(lines.drop_last()) + lines.last() + seq!['\n']
    }
}

/// Line break after an entry's name and after each of its lines.
pub open spec fn newline(full: bool) -> Seq<char> {
    if full {
        seq!['\n']
    } else {
        Seq::empty()
    }
}

/// Indentation of an entry's lines.
pub open spec fn offset(full: bool) -> nat {
    if full {
        4
    } else {
        1
    }
}

/// Whether two argument specifications are the same.
pub open spec fn same_arg(a: ArgSpec, b: ArgSpec) -> bool {
    &&& a.name@ == b.name@
    &&& a.doc@ == b.doc@
    &&& (a.default is Some <==> b.default is Some)
    &&& (a.default is Some ==> a.default->Some_0@ == b.default->Some_0@)
    &&& (a.example is Some <==> b.example is Some)
    &&& (a.example is Some ==> a.example->Some_0@ == b.example->Some_0@)
    &&& a.min_index == b.min_index
    &&& a.max_index == b.max_index
}

/// Whether two subcommand specifications are the same.
pub open spec fn same_cmd(a: CmdSpec, b: CmdSpec) -> bool {
    a.name@ == b.name@ && a.doc@ == b.doc@ && a.anywhere == b.anywhere
}

/// The name under which an entry is listed.
pub open spec fn taken_name(e: Taken) -> Seq<char> {
    match e {
        Taken::Arg(a) => a.spec_of().name@,
        Taken::Opt(o) => o.spec_of().name@,
        Taken::Flag(f) => f.spec_of().name@,
        Taken::Cmd(c) => c.spec_of().name@,
    }
}

/// An entry's name as listed, before styling.
pub open spec fn plain_entry_name(full: bool, e: Taken) -> Seq<char> {
    match e {
        Taken::Opt(o) => {
            let s = o.spec_of();
            let tail = " <"@ + s.ty@ + ">"@;
            match s.short {
                Some(c) => if full {
                    "--"@ + s.name@ + ", -"@ + seq![c] + tail
                } else {
                    seq!['-', c] + ", --"@ + s.name@ + tail
                },
                None => if full {
                    "--"@ + s.name@ + tail
                } else {
                    "    --"@ + s.name@ + tail
                },
            }
        },
        Taken::Flag(f) => {
            let s = f.spec_of();
            match s.short {
                Some(c) => if full {
                    "--"@ + s.name@ + ", -"@ + seq![c]
                } else {
                    seq!['-', c] + ", --"@ + s.name@
                },
                None => if full {
                    "--"@ + s.name@
                } else {
                    "    --"@ + s.name@
                },
            }
        },
        Taken::Arg(a) => a.spec_of().name@,
        Taken::Cmd(c) => c.spec_of().name@,
    }
}

/// An entry's name as listed.
pub open spec fn entry_name(is_terminal: bool, full: bool, e: Taken) -> Seq<char> {
    bold_text(is_terminal, plain_entry_name(full, e))
}

/// The listing sections.
#[derive(Clone, Copy)]
pub enum Section {
    Commands,
    Arguments,
    Options,
}

/// Whether entry `e` is listed in section `sec`.
pub open spec fn in_section(sec: Section, e: Taken) -> bool {
    match sec {
        Section::Commands => e is Cmd,
        Section::Arguments => e is Arg,
        Section::Options => e is Opt || e is Flag,
    }
}

/// The longest listed name among the entries of section `sec`.
pub open spec fn name_width(is_terminal: bool, sec: Section, log: Seq<Taken>) -> nat
    decreases log.len(),
{
    if log.len() == 0 {
        0
    } else {
        let w = name_width(is_terminal, sec, log.drop_last());
        let e = log.last();
        if in_section(sec, e) && entry_name(is_terminal, false, e).len() > w {
            entry_name(is_terminal, false, e).len()
        } else {
            w
        }
    }
}

/// Whether an entry of section `sec` equal to `e` (same argument or subcommand specification,
/// or same option or flag name) occurs in `log`.
pub open spec fn listed_in(sec: Section, log: Seq<Taken>, e: Taken) -> bool {
    exists|j: int|
        0 <= j < log.len() && #[trigger] in_section(sec, log[j]) && match (log[j], e) {
            (Taken::Arg(a), Taken::Arg(b)) => same_arg(a.spec_of(), b.spec_of()),
            (Taken::Cmd(a), Taken::Cmd(b)) => same_cmd(a.spec_of(), b.spec_of()),
            _ => taken_name(log[j]) == taken_name(e),
        }
}

/// The annotations that follow an entry's doc lines.
pub open spec fn annotations(full: bool, e: Taken) -> Seq<char> {
    let off = spaces(offset(full));
    let nl = newline(full);
    let env = match e {
        Taken::Opt(o) => o.spec_of().env,
        Taken::Flag(f) => f.spec_of().env,
        _ => None,
    };
    let default = match e {
        Taken::Opt(o) => o.spec_of().default,
        Taken::Arg(a) => a.spec_of().default,
        _ => None,
    };
    (match env {
        Some(v) => off + "[env: "@ + v@ + "]"@ + nl,
        None => Seq::empty(),
    }) + (match default {
        Some(d) => off + "[default: "@ + d@ + "]"@ + nl,
        None => Seq::empty(),
    })
}

/// The doc text of an entry.
pub open spec fn doc_of(e: Taken) -> Seq<char> {
    match e {
        Taken::Opt(o) => o.spec_of().doc@,
        Taken::Flag(f) => f.spec_of().doc@,
        Taken::Arg(a) => a.spec_of().doc@,
        Taken::Cmd(c) => c.spec_of().doc@,
    }
}

/// The block that lists one entry.
pub open spec fn entry_block(is_terminal: bool, full: bool, width: nat, e: Taken) -> Seq<char> {
    let lines = if e is Cmd {
        lines_of(doc_of(e))
    } else {
        doc_lines(full, doc_of(e))
    };
    "  "@ + pad(entry_name(is_terminal, full, e), width) + newline(full) + indented(
        lines,
        offset(full),
        newline(full),
    ) + annotations(full, e) + "\n"@
}

/// The blocks of section `sec` for the entries of `log`, each listed once.
pub open spec fn section_body(is_terminal: bool, full: bool, width: nat, sec: Section, log: Seq<Taken>) -> Seq<char>
    decreases log.len(),
{
    if log.len() == 0 {
        Seq::empty()
    } else {
        let e = log.last();
        section_body(is_terminal, full, width, sec, log.drop_last()) + if in_section(sec, e)
            && !listed_in(sec, log.drop_last(), e) {
            entry_block(is_terminal, full, width, e)
        } else {
            Seq::empty()
        }
    }
}

/// Whether some entry of `log` belongs to section `sec`.
pub open spec fn has_section(sec: Section, log: Seq<Taken>) -> bool {
    exists|j: int| 0 <= j < log.len() && #[trigger] in_section(sec, log[j])
}

/// The header of section `sec`.
pub open spec fn section_header(sec: Section) -> Seq<char> {
    match sec {
        Section::Commands => "Commands:\n"@,
        Section::Arguments => "Arguments:\n"@,
        Section::Options => "Options:\n"@,
    }
}

/// A whole listing section; empty when no entry belongs to it.
pub open spec fn section_text(is_terminal: bool, full: bool, sec: Section, log: Seq<Taken>) -> Seq<char> {
    if has_section(sec, log) {
        let width = if full {
            0
        } else {
            name_width(is_terminal, sec, log)
        };
        bold_underline_text(is_terminal, section_header(sec)) + section_body(
            is_terminal,
            full,
            width,
            sec,
            log,
        ) + if full {
            Seq::empty()
        } else {
            seq!['\n']
        }
    } else {
        Seq::empty()
    }
}

/// The index of the last subcommand in `log` that was found, if any.
pub open spec fn last_found_cmd(log: Seq<Taken>) -> Option<int>
    decreases log.len(),
{
    if log.len() == 0 {
        None
    } else if log.last() matches Taken::Cmd(c) && c is Found {
        Some(log.len() - 1)
    } else {
        last_found_cmd(log.drop_last())
    }
}

/// `log` without the arguments and subcommands logged at or before `anchor`.
pub open spec fn scoped_log(log: Seq<Taken>, anchor: int) -> Seq<Taken>
    decreases log.len(),
{
    if log.len() == 0 {
        Seq::empty()
    } else {
        let rest = scoped_log(log.drop_last(), anchor);
        let e = log.last();
        if (e is Arg || e is Cmd) && log.len() - 1 <= anchor {
            rest
        } else {
            rest.push(e)
        }
    }
}

/// The entries the help describes: after the last subcommand found, only its
/// own arguments and subcommands (options and flags are kept throughout).
pub open spec fn working_log(log: Seq<Taken>) -> Seq<Taken> {
    match last_found_cmd(log) {
        Some(k) => scoped_log(log, k),
        None => log,
    }
}

/// The name of the last subcommand found, if any.
pub open spec fn anchor_name(log: Seq<Taken>) -> Option<Seq<char>> {
    match last_found_cmd(log) {
        Some(k) => Some(taken_name(log[k])),
        None => None,
    }
}

/// The required options (those with an example), as shown in the usage line.
pub open spec fn required_opts(log: Seq<Taken>) -> Seq<char>
    decreases log.len(),
{
    if log.len() == 0 {
        Seq::empty()
    } else {
        required_opts(log.drop_last()) + match log.last() {
            Taken::Opt(o) => if o.spec_of().example is Some {
                " --"@ + o.spec_of().name@ + " <"@ + o.spec_of().ty@ + ">"@
            } else {
                Seq::empty()
            },
            _ => Seq::empty(),
        }
    }
}

/// Whether `log` holds a flag, or an option without an example.
pub open spec fn has_optional(log: Seq<Taken>) -> bool {
    exists|j: int|
        0 <= j < log.len() && match #[trigger] log[j] {
            Taken::Flag(_) => true,
            Taken::Opt(o) => o.spec_of().example is None,
            _ => false,
        }
}

/// The specification of the last positional argument in `log`.
pub open spec fn last_arg_spec(log: Seq<Taken>) -> Option<ArgSpec>
    decreases log.len(),
{
    if log.len() == 0 {
        None
    } else {
        match log.last() {
            Taken::Arg(a) => Some(a.spec_of()),
            _ => last_arg_spec(log.drop_last()),
        }
    }
}

/// The positional arguments of the usage line, a run of the same specification
/// shown once.
pub open spec fn positionals(log: Seq<Taken>) -> Seq<char>
    decreases log.len(),
{
    if log.len() == 0 {
        Seq::empty()
    } else {
        positionals(log.drop_last()) + match log.last() {
            Taken::Arg(a) => if last_arg_spec(log.drop_last()) matches Some(p) && same_arg(
                p,
                a.spec_of(),
            ) {
                Seq::empty()
            } else {
                " "@ + a.spec_of().name@
            },
            _ => Seq::empty(),
        }
    }
}

/// The start of the usage line: the application name, and the subcommand the
/// help is scoped to.
pub open spec fn usage_head(is_terminal: bool, md: Metadata, anchor: Option<Seq<char>>) -> Seq<char> {
    bold_underline_text(is_terminal, "Usage:"@) + " "@ + bold_text(is_terminal, md.app_name@) + (
    match anchor {
        Some(n) => " ... "@ + n,
        None => Seq::empty(),
    })
}

/// The usage line.
pub open spec fn usage_text(is_terminal: bool, md: Metadata, anchor: Option<Seq<char>>, log: Seq<Taken>) -> Seq<char> {
    usage_head(is_terminal, md, anchor) + required_opts(log) + (if has_optional(log) {
        " [OPTIONS]"@
    } else {
        Seq::empty()
    }) + positionals(log) + (if has_section(Section::Commands, log) {
        " <COMMAND>"@
    } else {
        Seq::empty()
    }) + "\n\n"@
}

/// Whether `c` is white space (Unicode `White_Space`, as `char::is_whitespace`).
pub open spec fn is_white_space(c: char) -> bool {
    ('\u{9}' <= c && c <= '\u{d}') || c == ' ' || c == '\u{85}' || c == '\u{a0}' || c == '\u{1680}'
        || ('\u{2000}' <= c && c <= '\u{200a}') || c == '\u{2028}' || c == '\u{2029}' || c
        == '\u{202f}' || c == '\u{205f}' || c == '\u{3000}'
}

/// Whether `s` holds a white-space character.
pub open spec fn has_white_space(s: Seq<char>) -> bool {
    exists|i: int| 0 <= i < s.len() && is_white_space(#[trigger] s[i])
}

/// An example value as written on a command line: quoted when it holds white
/// space or a quote.
pub open spec fn quoted(s: Seq<char>) -> Seq<char> {
    if s.contains('"') && !s.contains('\'') {
        "'"@ + s + "'"@
    } else if has_white_space(s) || s.contains('\'') {
        debug_quoted(s)
    } else {
        s
    }
}

/// What an entry contributes to the example invocation.
pub open spec fn example_of(e: Taken) -> Option<Seq<char>> {
    match e {
        Taken::Arg(a) => match a.spec_of().example {
            Some(x) => Some(quoted(x@)),
            None => None,
        },
        Taken::Opt(o) => match o.spec_of().example {
            Some(x) => Some("--"@ + o.spec_of().name@ + " "@ + quoted(x@)),
            None => None,
        },
        Taken::Cmd(c) => if c is Found {
            Some(c.spec_of().name@)
        } else {
            None
        },
        Taken::Flag(_) => None,
    }
}

/// The example invocation's words after the application name.
pub open spec fn examples(log: Seq<Taken>) -> Seq<char>
    decreases log.len(),
{
    if log.len() == 0 {
        Seq::empty()
    } else {
        examples(log.drop_last()) + match example_of(log.last()) {
            Some(x) => " "@ + x,
            None => Seq::empty(),
        }
    }
}

/// Whether some argument or option in `log` has an example.
pub open spec fn has_examples(log: Seq<Taken>) -> bool {
    exists|j: int|
        0 <= j < log.len() && match #[trigger] log[j] {
            Taken::Opt(o) => o.spec_of().example is Some,
            Taken::Arg(a) => a.spec_of().example is Some,
            _ => false,
        }
}

/// The example block: the application name followed by every example value of
/// the whole log, in order.
pub open spec fn example_text(is_terminal: bool, md: Metadata, log: Seq<Taken>, full_log: Seq<Taken>) -> Seq<char> {
    if has_examples(log) {
        bold_underline_text(is_terminal, "Example:\n"@) + "  $ "@ + md.app_name@ + examples(full_log)
            + "\n\n"@
    } else {
        Seq::empty()
    }
}

/// The description block.
pub open spec fn description_text(md: Metadata) -> Seq<char> {
    if md.app_description@.len() == 0 {
        Seq::empty()
    } else {
        terminated(doc_lines(md.full_help, md.app_description@)) + "\n"@
    }
}

/// The help text before its trailing blank line is trimmed.
pub open spec fn untrimmed_help(is_terminal: bool, md: Metadata, full_log: Seq<Taken>) -> Seq<char> {
    let log = working_log(full_log);
    let full = md.full_help;
    description_text(md) + usage_text(is_terminal, md, anchor_name(full_log), log) + example_text(
        is_terminal,
        md,
        log,
        full_log,
    ) + section_text(is_terminal, full, Section::Commands, log) + section_text(
        is_terminal,
        full,
        Section::Arguments,
        log,
    ) + section_text(is_terminal, full, Section::Options, log)
}

/// The help text for the given metadata and extraction log.
pub open spec fn help_text(is_terminal: bool, md: Metadata, full_log: Seq<Taken>) -> Seq<char> {
    let t = untrimmed_help(is_terminal, md, full_log);
    if t.len() >= 2 && t[t.len() - 1] == '\n' && t[t.len() - 2] == '\n' {
        t.drop_last()
    } else {
        t
    }
}

/// The views of a sequence of strings.
pub open spec fn views(v: Seq<String>) -> Seq<Seq<char>> {
    v.map_values(|l: String| l@)
}

/// Splits `s` into lines.
pub fn lines(s: &str) -> (r: Vec<String>)
    ensures
        views(r@) == lines_of(s@),
{
    let n = s.unicode_len();
    let mut r: Vec<String> = Vec::new();
    let mut start: usize = 0;
    let mut i: usize = 0;
    while i < n
        invariant
            n == s@.len(),
            start <= i <= n,
            views(r@) + lines_from(s@, start as int, i as int) == lines_of(s@),
        decreases n - i,
    {
        if s.get_char(i) == '\n' {
            let line = String::from_str(s.substring_char(start, i));
            proof {
                let rest = lines_from(s@, i as int + 1, i as int + 1);
                assert(views(r@.push(line)) =~= views(r@).push(line@));
                assert(views(r@) + (seq![line@] + rest) =~= views(r@).push(line@) + rest);
            }
            r.push(line);
            start = i + 1;
        }
        i = i + 1;
    }
    if start < n {
        let line = String::from_str(s.substring_char(start, n));
        proof {
            assert(views(r@.push(line)) =~= views(r@) + seq![line@]);
        }
        r.push(line);
    } else {
        assert(views(r@) + Seq::<Seq<char>>::empty() =~= views(r@));
    }
    r
}

/// Writes `n` spaces.
fn write_spaces(fmt: &mut Formatter, n: usize)
    ensures
        final(fmt)@ == old(fmt)@ + spaces(n as nat),
        final(fmt).for_terminal() == old(fmt).for_terminal(),
{
    let mut k: usize = 0;
    while k < n
        invariant
            k <= n,
            fmt@ == old(fmt)@ + spaces(k as nat),
            fmt.for_terminal() == old(fmt).for_terminal(),
        decreases n - k,
    {
        fmt.write(" ");
        proof {
            reveal_strlit(" ");
            assert(old(fmt)@ + spaces(k as nat) + " "@ =~= old(fmt)@ + spaces((k + 1) as nat));
        }
        k = k + 1;
    }
}

/// Whether entry `e` belongs to section `sec`.
fn in_section_of(sec: Section, e: &Taken) -> (r: bool)
    ensures
        r == in_section(sec, *e),
{
    match sec {
        Section::Commands => matches!(e, Taken::Cmd(_)),
        Section::Arguments => matches!(e, Taken::Arg(_)),
        Section::Options => matches!(e, Taken::Opt(_) | Taken::Flag(_)),
    }
}

/// Compares optional strings by their characters.
fn same_opt_str(a: Option<&'static str>, b: Option<&'static str>) -> (r: bool)
    ensures
        r == ((a is Some <==> b is Some) && (a is Some ==> a->Some_0@ == b->Some_0@)),
{
    match (a, b) {
        (Some(x), Some(y)) => str_eq(x, y),
        (None, None) => true,
        _ => false,
    }
}

/// Whether two argument specifications are the same.
fn same_arg_spec(a: ArgSpec, b: ArgSpec) -> (r: bool)
    ensures
        r == same_arg(a, b),
{
    str_eq(a.name, b.name) && str_eq(a.doc, b.doc) && same_opt_str(a.default, b.default)
        && same_opt_str(a.example, b.example) && a.min_index == b.min_index && a.max_index
        == b.max_index
}

/// Whether two subcommand specifications are the same.
fn same_cmd_spec(a: CmdSpec, b: CmdSpec) -> (r: bool)
    ensures
        r == same_cmd(a, b),
{
    str_eq(a.name, b.name) && str_eq(a.doc, b.doc) && a.anywhere == b.anywhere
}

/// The doc text of an entry.
fn doc_text(e: &Taken) -> (r: &'static str)
    ensures
        r@ == doc_of(*e),
{
    match e {
        Taken::Arg(a) => a.spec().doc,
        Taken::Opt(o) => o.spec().doc,
        Taken::Flag(f) => f.spec().doc,
        Taken::Cmd(c) => c.spec().doc,
    }
}

/// Tells whether `s` holds a white-space character.
fn contains_white_space(s: &str) -> (r: bool)
    ensures
        r == has_white_space(s@),
{
    let n = s.unicode_len();
    let mut i: usize = 0;
    while i < n
        invariant
            n == s@.len(),
            i <= n,
            forall|k: int| 0 <= k < i ==> !is_white_space(#[trigger] s@[k]),
        decreases n - i,
    {
        let c = s.get_char(i);
        if ('\u{9}' <= c && c <= '\u{d}') || c == ' ' || c == '\u{85}' || c == '\u{a0}' || c
            == '\u{1680}' || ('\u{2000}' <= c && c <= '\u{200a}') || c == '\u{2028}' || c
            == '\u{2029}' || c == '\u{202f}' || c == '\u{205f}' || c == '\u{3000}' {
            return true;
        }
        i = i + 1;
    }
    false
}

/// An example value as written on a command line.
fn quote_if_need(s: &'static str) -> (r: String)
    ensures
        r@ == quoted(s@),
{
    let dq = crate::args::contains_char(s, '"');
    let sq = crate::args::contains_char(s, '\'');
    if dq && !sq {
        let mut r = String::from_str("'");
        r.append(s);
        r.append("'");
        r
    } else if contains_white_space(s) || sq {
        debug_quote(s)
    } else {
        String::from_str(s)
    }
}

impl Taken {
    /// The name of the specification this entry was taken by.
    pub fn name(&self) -> (r: &'static str)
        ensures
            r@ == taken_name(*self),
    {
        match self {
            Taken::Arg(a) => a.spec().name,
            Taken::Opt(o) => o.spec().name,
            Taken::Flag(f) => f.spec().name,
            Taken::Cmd(c) => c.spec().name,
        }
    }

    /// What this entry contributes to the example invocation.
    pub fn example(&self) -> (r: Option<String>)
        ensures
            match r {
                Some(x) => example_of(*self) == Some(x@),
                None => example_of(*self) is None,
            },
    {
        match self {
            Taken::Arg(a) => match a.spec().example {
                Some(x) => Some(quote_if_need(x)),
                None => None,
            },
            Taken::Opt(o) => {
                let sp = o.spec();
                match sp.example {
                    Some(x) => {
                        let mut r = String::from_str("--");
                        r.append(sp.name);
                        r.append(" ");
                        let q = quote_if_need(x);
                        r.append(q.as_str());
                        Some(r)
                    },
                    None => None,
                }
            },
            Taken::Cmd(c) => if c.is_present() {
                Some(String::from_str(c.spec().name))
            } else {
                None
            },
            Taken::Flag(_) => None,
        }
    }
}

/// Builds the help text from a store's metadata and extraction log.
#[derive(Debug)]
pub struct HelpBuilder {
    metadata: Metadata,
    full_log: Vec<Taken>,
    log: Vec<Taken>,
    fmt: Formatter,
    cmd_name: Option<&'static str>,
}

impl HelpBuilder {
    /// Whether the builder is ready to build the help for its inputs.
    pub closed spec fn ready(&self) -> bool {
        &&& self.fmt@ == Seq::<char>::empty()
        &&& self.log@ == working_log(self.full_log@)
        &&& self.anchored()
    }

    /// Whether the recorded subcommand name is that of the last subcommand found.
    closed spec fn anchored(&self) -> bool {
        match self.cmd_name {
            Some(n) => anchor_name(self.full_log@) == Some(n@),
            None => anchor_name(self.full_log@) is None,
        }
    }

    /// The metadata the help is built for.
    pub closed spec fn metadata_spec(&self) -> Metadata {
        self.metadata
    }

    /// The extraction log the help is built from.
    pub closed spec fn log_spec(&self) -> Seq<Taken> {
        self.full_log@
    }

    /// Whether styles are written.
    pub closed spec fn terminal_spec(&self) -> bool {
        self.fmt.for_terminal()
    }


    /// Writes the doc lines of entry `e`, each indented and followed by the line
    /// break of the mode.
    fn write_doc(&mut self, e: &Taken)
        ensures
            final(self).fmt@ == old(self).fmt@ + indented(
                if *e is Cmd {
                    lines_of(doc_of(*e))
                } else {
                    doc_lines(old(self).metadata.full_help, doc_of(*e))
                },
                offset(old(self).metadata.full_help),
                newline(old(self).metadata.full_help),
            ),
            final(self).fmt.for_terminal() == old(self).fmt.for_terminal(),
            final(self).metadata == old(self).metadata,
            final(self).log == old(self).log,
            final(self).full_log == old(self).full_log,
            final(self).cmd_name == old(self).cmd_name,
    {
        let full = self.metadata.full_help;
        let ls = lines(doc_text(e));
        let is_cmd = matches!(e, Taken::Cmd(_));
        let k: usize = if is_cmd || full || ls.len() <= 1 {
            ls.len()
        } else {
            1
        };
        let off: usize = if full {
            4
        } else {
            1
        };
        let ghost all = views(ls@);
        let mut j: usize = 0;
        while j < k
            invariant
                k <= ls@.len(),
                j <= k,
                all == views(ls@),
                off == offset(full),
                full == self.metadata.full_help,
                self.fmt@ == old(self).fmt@ + indented(all.subrange(0, j as int), off as nat, newline(full)),
                self.fmt.for_terminal() == old(self).fmt.for_terminal(),
                self.metadata == old(self).metadata,
                self.log == old(self).log,
                self.full_log == old(self).full_log,
                self.cmd_name == old(self).cmd_name,
            decreases k - j,
        {
            write_spaces(&mut self.fmt, off);
            self.fmt.write(ls[j].as_str());
            if full {
                self.fmt.write("\n");
            }
            proof {
                reveal_strlit("\n");
                let pre = all.subrange(0, j as int + 1);
                assert(pre.drop_last() =~= all.subrange(0, j as int));
                assert(pre.last() == ls@[j as int]@);
                assert(self.fmt@ =~= old(self).fmt@ + indented(pre, off as nat, newline(full)));
            }
            j = j + 1;
        }
        proof {
            if k == ls@.len() {
                assert(all.subrange(0, k as int) =~= all);
            } else {
                assert(all.subrange(0, k as int) =~= all.take(1));
            }
        }
    }

    /// Writes the line break of the mode.
    fn write_newline(&mut self)
        ensures
            final(self).fmt@ == old(self).fmt@ + newline(old(self).metadata.full_help),
            final(self).fmt.for_terminal() == old(self).fmt.for_terminal(),
            final(self).metadata == old(self).metadata,
            final(self).log == old(self).log,
            final(self).full_log == old(self).full_log,
            final(self).cmd_name == old(self).cmd_name,
    {
        if self.metadata.full_help {
            self.fmt.write("\n");
            proof {
                reveal_strlit("\n");
            }
        } else {
            assert(self.fmt@ =~= old(self).fmt@ + newline(old(self).metadata.full_help));
        }
    }

    /// An entry's name as listed.
    fn entry_name(&self, e: &Taken) -> (r: String)
        ensures
            r@ == entry_name(self.fmt.for_terminal(), self.metadata.full_help, *e),
    {
        let full = self.metadata.full_help;
        let mut s = String::new();
        proof {
            reveal_strlit("-");
        }
        match e {
            Taken::Opt(o) => {
                let sp = o.spec();
                match sp.short {
                    Some(c) => {
                        if full {
                            s.append("--");
                            s.append(sp.name);
                            s.append(", -");
                            push_char(&mut s, c);
                        } else {
                            s.append("-");
                            push_char(&mut s, c);
                            s.append(", --");
                            s.append(sp.name);
                        }
                    },
                    None => {
                        if full {
                            s.append("--");
                        } else {
                            s.append("    --");
                        }
                        s.append(sp.name);
                    },
                }
                s.append(" <");
                s.append(sp.ty);
                s.append(">");
            },
            Taken::Flag(f) => {
                let sp = f.spec();
                match sp.short {
                    Some(c) => {
                        if full {
                            s.append("--");
                            s.append(sp.name);
                            s.append(", -");
                            push_char(&mut s, c);
                        } else {
                            s.append("-");
                            push_char(&mut s, c);
                            s.append(", --");
                            s.append(sp.name);
                        }
                    },
                    None => {
                        if full {
                            s.append("--");
                        } else {
                            s.append("    --");
                        }
                        s.append(sp.name);
                    },
                }
            },
            Taken::Arg(a) => {
                s.append(a.spec().name);
            },
            Taken::Cmd(c) => {
                s.append(c.spec().name);
            },
        }
        assert(s@ =~= plain_entry_name(full, *e));
        self.fmt.bold(s.as_str())
    }


    /// Writes the `[env: ..]` and `[default: ..]` annotations of an entry.
    fn write_annotations(&mut self, e: &Taken)
        ensures
            final(self).fmt@ == old(self).fmt@ + annotations(old(self).metadata.full_help, *e),
            final(self).fmt.for_terminal() == old(self).fmt.for_terminal(),
            final(self).metadata == old(self).metadata,
            final(self).log == old(self).log,
            final(self).full_log == old(self).full_log,
            final(self).cmd_name == old(self).cmd_name,
    {
        let full = self.metadata.full_help;
        let off: usize = if full {
            4
        } else {
            1
        };
        let env = match e {
            Taken::Opt(o) => o.spec().env,
            Taken::Flag(f) => f.spec().env,
            _ => None,
        };
        let default = match e {
            Taken::Opt(o) => o.spec().default,
            Taken::Arg(a) => a.spec().default,
            _ => None,
        };
        let ghost mid = self.fmt@;
        if let Some(v) = env {
            write_spaces(&mut self.fmt, off);
            self.fmt.write("[env: ");
            self.fmt.write(v);
            self.fmt.write("]");
            self.write_newline();
        }
        assert(self.fmt@ =~= old(self).fmt@ + (match env {
            Some(v) => spaces(offset(full)) + "[env: "@ + v@ + "]"@ + newline(full),
            None => Seq::empty(),
        }));
        let ghost after_env = self.fmt@;
        if let Some(d) = default {
            write_spaces(&mut self.fmt, off);
            self.fmt.write("[default: ");
            self.fmt.write(d);
            self.fmt.write("]");
            self.write_newline();
        }
        assert(self.fmt@ =~= after_env + (match default {
            Some(d) => spaces(offset(full)) + "[default: "@ + d@ + "]"@ + newline(full),
            None => Seq::empty(),
        }));
        assert(self.fmt@ =~= old(self).fmt@ + annotations(full, *e));
    }

    /// Writes the block that lists one entry.
    #[verifier::rlimit(30)]
    fn write_entry(&mut self, width: usize, e: &Taken)
        ensures
            final(self).fmt@ == old(self).fmt@ + entry_block(
                old(self).fmt.for_terminal(),
                old(self).metadata.full_help,
                width as nat,
                *e,
            ),
            final(self).fmt.for_terminal() == old(self).fmt.for_terminal(),
            final(self).metadata == old(self).metadata,
            final(self).log == old(self).log,
            final(self).full_log == old(self).full_log,
            final(self).cmd_name == old(self).cmd_name,
    {
        let name = self.entry_name(e);
        self.fmt.write("  ");
        self.fmt.write(name.as_str());
        let len = name.as_str().unicode_len();
        if len < width {
            write_spaces(&mut self.fmt, width - len);
        }
        let ghost t = old(self).fmt.for_terminal();
        let ghost full = old(self).metadata.full_help;
        let ghost head = "  "@ + pad(name@, width as nat);
        assert(self.fmt@ =~= old(self).fmt@ + head);
        self.write_newline();
        let ghost g1 = self.fmt@;
        self.write_doc(e);
        let ghost g2 = self.fmt@;
        self.write_annotations(e);
        let ghost g3 = self.fmt@;
        self.fmt.write("\n");
        proof {
            let lines = if *e is Cmd {
                lines_of(doc_of(*e))
            } else {
                doc_lines(full, doc_of(*e))
            };
            let ind = indented(lines, offset(full), newline(full));
            let ann = annotations(full, *e);
            assert(g1 == old(self).fmt@ + head + newline(full));
            assert(g2 == g1 + ind);
            assert(g3 == g2 + ann);
            assert(entry_block(t, full, width as nat, *e) == head + newline(full) + ind + ann + "\n"@);
            assert(self.fmt@ =~= old(self).fmt@ + (head + newline(full) + ind + ann + "\n"@));
        }
    }

    /// Whether an entry like `e` was already listed among the first `i` entries.
    fn listed_before(&self, sec: Section, i: usize, e: &Taken) -> (r: bool)
        requires
            i <= self.log@.len(),
        ensures
            r == listed_in(sec, self.log@.subrange(0, i as int), *e),
    {
        let ghost pre = self.log@.subrange(0, i as int);
        let mut j: usize = 0;
        while j < i
            invariant
                i <= self.log@.len(),
                j <= i,
                pre == self.log@.subrange(0, i as int),
                forall|k: int|
                    0 <= k < j ==> !(#[trigger] in_section(sec, pre[k]) && match (pre[k], *e) {
                        (Taken::Arg(a), Taken::Arg(b)) => same_arg(a.spec_of(), b.spec_of()),
                        (Taken::Cmd(a), Taken::Cmd(b)) => same_cmd(a.spec_of(), b.spec_of()),
                        _ => taken_name(pre[k]) == taken_name(*e),
                    }),
            decreases i - j,
        {
            let d = &self.log[j];
            assert(pre[j as int] == *d);
            if in_section_of(sec, d) {
                let same = match (d, e) {
                    (Taken::Arg(a), Taken::Arg(b)) => same_arg_spec(a.spec(), b.spec()),
                    (Taken::Cmd(a), Taken::Cmd(b)) => same_cmd_spec(a.spec(), b.spec()),
                    _ => str_eq(d.name(), e.name()),
                };
                if same {
                    return true;
                }
            }
            j = j + 1;
        }
        false
    }

    /// The longest listed name among the entries of section `sec`.
    fn width_of(&self, sec: Section) -> (r: usize)
        ensures
            r == name_width(self.fmt.for_terminal(), sec, self.log@),
    {
        let n = self.log.len();
        let mut w: usize = 0;
        let mut i: usize = 0;
        while i < n
            invariant
                n == self.log@.len(),
                i <= n,
                w == name_width(self.fmt.for_terminal(), sec, self.log@.subrange(0, i as int)),
            decreases n - i,
        {
            proof {
                assert(self.log@.subrange(0, i as int + 1).drop_last() =~= self.log@.subrange(0, i as int));
            }
            let e = &self.log[i];
            if in_section_of(sec, e) {
                let len = self.entry_name_summary_len(e);
                if len > w {
                    w = len;
                }
            }
            i = i + 1;
        }
        assert(self.log@.subrange(0, n as int) =~= self.log@);
        w
    }

    /// The length of an entry's name as listed in summary mode.
    fn entry_name_summary_len(&self, e: &Taken) -> (r: usize)
        ensures
            r == entry_name(self.fmt.for_terminal(), false, *e).len(),
    {
        let summary = HelpBuilder {
            metadata: Metadata { full_help: false, ..self.metadata },
            full_log: Vec::new(),
            log: Vec::new(),
            fmt: Formatter::new(self.fmt.is_terminal()),
            cmd_name: None,
        };
        summary.entry_name(e).as_str().unicode_len()
    }

    /// Whether some entry belongs to section `sec`.
    fn has(&self, sec: Section) -> (r: bool)
        ensures
            r == has_section(sec, self.log@),
    {
        let n = self.log.len();
        let mut i: usize = 0;
        while i < n
            invariant
                n == self.log@.len(),
                i <= n,
                forall|k: int| 0 <= k < i ==> !#[trigger] in_section(sec, self.log@[k]),
            decreases n - i,
        {
            if in_section_of(sec, &self.log[i]) {
                return true;
            }
            i = i + 1;
        }
        false
    }

    /// Writes a listing section.
    fn build_section(&mut self, sec: Section)
        ensures
            final(self).fmt@ == old(self).fmt@ + section_text(
                old(self).fmt.for_terminal(),
                old(self).metadata.full_help,
                sec,
                old(self).log@,
            ),
            final(self).fmt.for_terminal() == old(self).fmt.for_terminal(),
            final(self).metadata == old(self).metadata,
            final(self).log == old(self).log,
            final(self).full_log == old(self).full_log,
            final(self).cmd_name == old(self).cmd_name,
    {
        if !self.has(sec) {
            return;
        }
        let full = self.metadata.full_help;
        let header = match sec {
            Section::Commands => "Commands:\n",
            Section::Arguments => "Arguments:\n",
            Section::Options => "Options:\n",
        };
        let h = self.fmt.bold_underline(header);
        self.fmt.write(h.as_str());
        let width: usize = if full {
            0
        } else {
            self.width_of(sec)
        };
        let ghost t = self.fmt.for_terminal();
        let ghost base = self.fmt@;
        let n = self.log.len();
        let mut i: usize = 0;
        while i < n
            invariant
                n == self.log@.len(),
                i <= n,
                t == self.fmt.for_terminal(),
                full == self.metadata.full_help,
                self.fmt@ == base + section_body(t, full, width as nat, sec, self.log@.subrange(0, i as int)),
                self.metadata == old(self).metadata,
                self.log == old(self).log,
                self.full_log == old(self).full_log,
                self.cmd_name == old(self).cmd_name,
            decreases n - i,
        {
            proof {
                assert(self.log@.subrange(0, i as int + 1).drop_last() =~= self.log@.subrange(0, i as int));
            }
            let e = self.log[i].clone();
            if in_section_of(sec, &e) && !self.listed_before(sec, i, &e) {
                self.write_entry(width, &e);
            }
            assert(self.fmt@ =~= base + section_body(t, full, width as nat, sec, self.log@.subrange(0, i as int + 1)));
            i = i + 1;
        }
        assert(self.log@.subrange(0, n as int) =~= self.log@);
        if !full {
            self.fmt.write("\n");
            proof {
                reveal_strlit("\n");
            }
        }
        assert(self.fmt@ =~= old(self).fmt@ + section_text(t, full, sec, self.log@));
    }


    /// Writes the description block.
    fn build_description(&mut self)
        ensures
            final(self).fmt@ == old(self).fmt@ + description_text(old(self).metadata),
            final(self).fmt.for_terminal() == old(self).fmt.for_terminal(),
            final(self).metadata == old(self).metadata,
            final(self).log == old(self).log,
            final(self).full_log == old(self).full_log,
            final(self).cmd_name == old(self).cmd_name,
    {
        let desc = self.metadata.app_description;
        if desc.unicode_len() == 0 {
            return;
        }
        let full = self.metadata.full_help;
        let ls = lines(desc);
        let k: usize = if full || ls.len() <= 1 {
            ls.len()
        } else {
            1
        };
        let ghost all = views(ls@);
        let mut j: usize = 0;
        while j < k
            invariant
                k <= ls@.len(),
                j <= k,
                all == views(ls@),
                self.fmt@ == old(self).fmt@ + terminated(all.subrange(0, j as int)),
                self.fmt.for_terminal() == old(self).fmt.for_terminal(),
                self.metadata == old(self).metadata,
                self.log == old(self).log,
                self.full_log == old(self).full_log,
                self.cmd_name == old(self).cmd_name,
            decreases k - j,
        {
            self.fmt.write(ls[j].as_str());
            self.fmt.write("\n");
            proof {
                reveal_strlit("\n");
                let pre = all.subrange(0, j as int + 1);
                assert(pre.drop_last() =~= all.subrange(0, j as int));
                assert(self.fmt@ =~= old(self).fmt@ + terminated(pre));
            }
            j = j + 1;
        }
        proof {
            if k == ls@.len() {
                assert(all.subrange(0, k as int) =~= all);
            } else {
                assert(all.subrange(0, k as int) =~= all.take(1));
            }
        }
        self.fmt.write("\n");
    }

    /// Whether the log holds a flag, or an option without an example.
    fn has_optional(&self) -> (r: bool)
        ensures
            r == has_optional(self.log@),
    {
        let n = self.log.len();
        let mut i: usize = 0;
        while i < n
            invariant
                n == self.log@.len(),
                i <= n,
                forall|k: int|
                    0 <= k < i ==> !match #[trigger] self.log@[k] {
                        Taken::Flag(_) => true,
                        Taken::Opt(o) => o.spec_of().example is None,
                        _ => false,
                    },
            decreases n - i,
        {
            let hit = match &self.log[i] {
                Taken::Flag(_) => true,
                Taken::Opt(o) => o.spec().example.is_none(),
                _ => false,
            };
            if hit {
                return true;
            }
            i = i + 1;
        }
        false
    }

    /// Whether some argument or option has an example.
    fn has_examples(&self) -> (r: bool)
        ensures
            r == has_examples(self.log@),
    {
        let n = self.log.len();
        let mut i: usize = 0;
        while i < n
            invariant
                n == self.log@.len(),
                i <= n,
                forall|k: int|
                    0 <= k < i ==> !match #[trigger] self.log@[k] {
                        Taken::Opt(o) => o.spec_of().example is Some,
                        Taken::Arg(a) => a.spec_of().example is Some,
                        _ => false,
                    },
            decreases n - i,
        {
            let hit = match &self.log[i] {
                Taken::Opt(o) => o.spec().example.is_some(),
                Taken::Arg(a) => a.spec().example.is_some(),
                _ => false,
            };
            if hit {
                return true;
            }
            i = i + 1;
        }
        false
    }

    /// Writes the required options of the usage line.
    fn write_required_opts(&mut self)
        ensures
            final(self).fmt@ == old(self).fmt@ + required_opts(old(self).log@),
            final(self).fmt.for_terminal() == old(self).fmt.for_terminal(),
            final(self).metadata == old(self).metadata,
            final(self).log == old(self).log,
            final(self).full_log == old(self).full_log,
            final(self).cmd_name == old(self).cmd_name,
    {
        let ghost t = self.fmt.for_terminal();
        let ghost base = self.fmt@;
        let n = self.log.len();
        let mut i: usize = 0;
        while i < n
            invariant
                n == self.log@.len(),
                i <= n,
                self.fmt@ == base + required_opts(self.log@.subrange(0, i as int)),
                base == old(self).fmt@,
                t == self.fmt.for_terminal(),
                self.metadata == old(self).metadata,
                self.log == old(self).log,
                self.full_log == old(self).full_log,
                self.cmd_name == old(self).cmd_name,
            decreases n - i,
        {
            proof {
                assert(self.log@.subrange(0, i as int + 1).drop_last() =~= self.log@.subrange(0, i as int));
            }
            if let Taken::Opt(o) = &self.log[i] {
                let sp = o.spec();
                if sp.example.is_some() {
                    self.fmt.write(" --");
                    self.fmt.write(sp.name);
                    self.fmt.write(" <");
                    self.fmt.write(sp.ty);
                    self.fmt.write(">");
                }
            }
            assert(self.fmt@ =~= base + required_opts(self.log@.subrange(0, i as int + 1)));
            i = i + 1;
        }
        assert(self.log@.subrange(0, n as int) =~= self.log@);
    }

    /// Writes the positional arguments of the usage line.
    fn write_positionals(&mut self)
        ensures
            final(self).fmt@ == old(self).fmt@ + positionals(old(self).log@),
            final(self).fmt.for_terminal() == old(self).fmt.for_terminal(),
            final(self).metadata == old(self).metadata,
            final(self).log == old(self).log,
            final(self).full_log == old(self).full_log,
            final(self).cmd_name == old(self).cmd_name,
    {
        let ghost t = self.fmt.for_terminal();
        let ghost base = self.fmt@;
        let n = self.log.len();
        let mut last: Option<ArgSpec> = None;
        let mut i: usize = 0;
        while i < n
            invariant
                n == self.log@.len(),
                i <= n,
                self.fmt@ == base + positionals(self.log@.subrange(0, i as int)),
                base == old(self).fmt@,
                last == last_arg_spec(self.log@.subrange(0, i as int)),
                t == self.fmt.for_terminal(),
                self.metadata == old(self).metadata,
                self.log == old(self).log,
                self.full_log == old(self).full_log,
                self.cmd_name == old(self).cmd_name,
            decreases n - i,
        {
            proof {
                assert(self.log@.subrange(0, i as int + 1).drop_last() =~= self.log@.subrange(0, i as int));
            }
            if let Taken::Arg(a) = &self.log[i] {
                let sp = a.spec();
                let repeated = match last {
                    Some(p) => same_arg_spec(p, sp),
                    None => false,
                };
                if !repeated {
                    self.fmt.write(" ");
                    self.fmt.write(sp.name);
                }
                last = Some(sp);
            }
            assert(self.fmt@ =~= base + positionals(self.log@.subrange(0, i as int + 1)));
            i = i + 1;
        }
        assert(self.log@.subrange(0, n as int) =~= self.log@);
    }

    /// Writes the start of the usage line.
    fn write_usage_head(&mut self)
        requires
            old(self).anchored(),
        ensures
            final(self).fmt@ == old(self).fmt@ + usage_head(
                old(self).fmt.for_terminal(),
                old(self).metadata,
                anchor_name(old(self).full_log@),
            ),
            final(self).fmt.for_terminal() == old(self).fmt.for_terminal(),
            final(self).metadata == old(self).metadata,
            final(self).log == old(self).log,
            final(self).full_log == old(self).full_log,
            final(self).cmd_name == old(self).cmd_name,
    {
        let u = self.fmt.bold_underline("Usage:");
        self.fmt.write(u.as_str());
        self.fmt.write(" ");
        let b = self.fmt.bold(self.metadata.app_name);
        self.fmt.write(b.as_str());
        if let Some(name) = self.cmd_name {
            self.fmt.write(" ... ");
            self.fmt.write(name);
        }
        assert(self.fmt@ =~= old(self).fmt@ + usage_head(
            old(self).fmt.for_terminal(),
            old(self).metadata,
            anchor_name(old(self).full_log@),
        ));
    }

    /// Writes the usage line.
    fn build_usage(&mut self)
        requires
            old(self).anchored(),
        ensures
            final(self).fmt@ == old(self).fmt@ + usage_text(
                old(self).fmt.for_terminal(),
                old(self).metadata,
                anchor_name(old(self).full_log@),
                old(self).log@,
            ),
            final(self).fmt.for_terminal() == old(self).fmt.for_terminal(),
            final(self).metadata == old(self).metadata,
            final(self).log == old(self).log,
            final(self).full_log == old(self).full_log,
            final(self).cmd_name == old(self).cmd_name,
    {
        let ghost t = self.fmt.for_terminal();
        let ghost head = usage_head(t, self.metadata, anchor_name(self.full_log@));
        self.write_usage_head();
        self.write_required_opts();
        let ghost g1 = self.fmt@;
        let opts = self.has_optional();
        if opts {
            self.fmt.write(" [OPTIONS]");
        }
        let ghost g2 = self.fmt@;
        self.write_positionals();
        let ghost g3 = self.fmt@;
        let cmds = self.has(Section::Commands);
        if cmds {
            self.fmt.write(" <COMMAND>");
        }
        let ghost g4 = self.fmt@;
        self.fmt.write("\n\n");
        proof {
            let o = if opts {
                " [OPTIONS]"@
            } else {
                Seq::empty()
            };
            let c = if cmds {
                " <COMMAND>"@
            } else {
                Seq::empty()
            };
            assert(g2 =~= g1 + o);
            assert(g4 =~= g3 + c);
            assert(self.fmt@ =~= old(self).fmt@ + (head + required_opts(self.log@) + o + positionals(
                self.log@,
            ) + c + "\n\n"@));
        }
    }

    /// Writes the example block.
    fn build_example(&mut self)
        ensures
            final(self).fmt@ == old(self).fmt@ + example_text(
                old(self).fmt.for_terminal(),
                old(self).metadata,
                old(self).log@,
                old(self).full_log@,
            ),
            final(self).fmt.for_terminal() == old(self).fmt.for_terminal(),
            final(self).metadata == old(self).metadata,
            final(self).log == old(self).log,
            final(self).full_log == old(self).full_log,
            final(self).cmd_name == old(self).cmd_name,
    {
        if !self.has_examples() {
            return;
        }
        let ghost t = self.fmt.for_terminal();
        let h = self.fmt.bold_underline("Example:\n");
        self.fmt.write(h.as_str());
        self.fmt.write("  $ ");
        self.fmt.write(self.metadata.app_name);
        let ghost base = self.fmt@;
        let n = self.full_log.len();
        let mut i: usize = 0;
        while i < n
            invariant
                n == self.full_log@.len(),
                i <= n,
                self.fmt@ == base + examples(self.full_log@.subrange(0, i as int)),
                t == self.fmt.for_terminal(),
                self.metadata == old(self).metadata,
                self.log == old(self).log,
                self.full_log == old(self).full_log,
                self.cmd_name == old(self).cmd_name,
            decreases n - i,
        {
            proof {
                assert(self.full_log@.subrange(0, i as int + 1).drop_last() =~= self.full_log@.subrange(0, i as int));
            }
            if let Some(x) = self.full_log[i].example() {
                self.fmt.write(" ");
                self.fmt.write(x.as_str());
            }
            assert(self.fmt@ =~= base + examples(self.full_log@.subrange(0, i as int + 1)));
            i = i + 1;
        }
        assert(self.full_log@.subrange(0, n as int) =~= self.full_log@);
        self.fmt.write("\n\n");
        assert(self.fmt@ =~= old(self).fmt@ + example_text(t, self.metadata, self.log@, self.full_log@));
    }

    /// Renders the help text.
    pub fn build(self) -> (r: String)
        requires
            self.ready(),
        ensures
            r@ == help_text(self.terminal_spec(), self.metadata_spec(), self.log_spec()),
    {
        let mut this = self;
        let ghost t = this.fmt.for_terminal();
        this.build_description();
        this.build_usage();
        this.build_example();
        this.build_section(Section::Commands);
        this.build_section(Section::Arguments);
        this.build_section(Section::Options);
        let text = this.fmt.finish();
        assert(text@ =~= untrimmed_help(t, self.metadata, self.full_log@));
        let n = text.as_str().unicode_len();
        if n >= 2 && text.as_str().get_char(n - 1) == '\n' && text.as_str().get_char(n - 2) == '\n' {
            String::from_str(text.as_str().substring_char(0, n - 1))
        } else {
            text
        }
    }

    /// Prepares the help for the store's metadata and log.
    pub fn new(args: &RawArgs, is_terminal: bool) -> (r: Self)
        ensures
            r.ready(),
            r.metadata_spec() == args@.metadata,
            r.log_spec() == args@.log,
            r.terminal_spec() == is_terminal,
    {
        let src = args.log();
        let n = src.len();
        let mut full_log: Vec<Taken> = Vec::new();
        let mut anchor: Option<usize> = None;
        let mut i: usize = 0;
        while i < n
            invariant
                n == src@.len(),
                i <= n,
                full_log@ == src@.subrange(0, i as int),
                match anchor {
                    Some(k) => k < i && last_found_cmd(src@.subrange(0, i as int)) == Some(k as int),
                    None => last_found_cmd(src@.subrange(0, i as int)) is None,
                },
            decreases n - i,
        {
            let e = src[i].clone();
            if matches!(e, Taken::Cmd(crate::cmd::Cmd::Found { .. })) {
                anchor = Some(i);
            }
            full_log.push(e);
            proof {
                assert(src@.subrange(0, i as int + 1).drop_last() =~= src@.subrange(0, i as int));
            }
            i = i + 1;
        }
        proof {
            assert(src@.subrange(0, n as int) =~= src@);
        }
        let mut log: Vec<Taken> = Vec::new();
        let mut cmd_name: Option<&'static str> = None;
        match anchor {
            None => {
                let mut j: usize = 0;
                while j < n
                    invariant
                        n == full_log@.len(),
                        j <= n,
                        log@ == full_log@.subrange(0, j as int),
                    decreases n - j,
                {
                    log.push(full_log[j].clone());
                    proof {
                        assert(full_log@.subrange(0, j as int + 1) =~= full_log@.subrange(0, j as int).push(full_log@[j as int]));
                    }
                    j = j + 1;
                }
                assert(full_log@.subrange(0, n as int) =~= full_log@);
            },
            Some(k) => {
                cmd_name = Some(full_log[k].name());
                let mut j: usize = 0;
                while j < n
                    invariant
                        n == full_log@.len(),
                        j <= n,
                        log@ == scoped_log(full_log@.subrange(0, j as int), k as int),
                    decreases n - j,
                {
                    let e = &full_log[j];
                    proof {
                        assert(full_log@.subrange(0, j as int + 1).drop_last() =~= full_log@.subrange(0, j as int));
                    }
                    if !(matches!(e, Taken::Arg(_) | Taken::Cmd(_)) && j <= k) {
                        log.push(e.clone());
                    }
                    j = j + 1;
                }
                assert(full_log@.subrange(0, n as int) =~= full_log@);
            },
        }
        HelpBuilder { metadata: args.metadata(), full_log, log, fmt: Formatter::new(is_terminal), cmd_name }
    }
}

} // verus!
