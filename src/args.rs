//! The raw token store: one slot per process argument, the metadata that steers
//! extraction and help, the environment table, and the log of extractions.
use vstd::prelude::*;

use crate::arg::Arg;
use crate::cmd::Cmd;
use crate::flag::Flag;
use crate::opt::Opt;
use crate::error::{command_error, command_pending, unexpected_error, Error};
use crate::help::{help_text, HelpBuilder};
use crate::text::str_eq;

verus! {

/// Which characters may follow a single `-` for the token to count as a cluster
/// of short flags (as in `-abc`), rather than a short option with its value
/// attached (as in `-khello`).
#[derive(Debug, Clone, Copy, PartialEq, Eq, Hash)]
pub enum FlagChars {
    /// Only ASCII letters.
    AsciiAlphabetic,
    /// Only the characters of the given string.
    OneOf(&'static str),
}

/// Whether `c` is an ASCII letter.
pub open spec fn is_ascii_letter(c: char) -> bool {
    ('a' <= c && c <= 'z') || ('A' <= c && c <= 'Z')
}

impl FlagChars {
    /// Whether every character of `s` is accepted.
    pub open spec fn accepts(self, s: Seq<char>) -> bool {
        match self {
            FlagChars::AsciiAlphabetic => forall|i: int| 0 <= i < s.len() ==> is_ascii_letter(#[trigger] s[i]),
            FlagChars::OneOf(set) => forall|i: int| 0 <= i < s.len() ==> set@.contains(#[trigger] s[i]),
        }
    }

    /// Tells whether every character of `s` is accepted.
    pub fn check(self, s: &str) -> (r: bool)
        ensures
            r == self.accepts(s@),
    {
        let n = s.unicode_len();
        let mut i: usize = 0;
        while i < n
            invariant
                n == s@.len(),
                i <= n,
                self.accepts(s@.subrange(0, i as int)),
            decreases n - i,
        {
            let c = s.get_char(i);
            let ok = match self {
                FlagChars::AsciiAlphabetic => ('a' <= c && c <= 'z') || ('A' <= c && c <= 'Z'),
                FlagChars::OneOf(set) => contains_char(set, c),
            };
            if !ok {
                assert(s@.subrange(0, i as int + 1)[i as int] == c);
                return false;
            }
            assert(self.accepts(s@.subrange(0, i as int + 1))) by {
                assert forall|k: int| 0 <= k < i + 1 implies #[trigger] s@.subrange(0, i as int + 1)[k]
                    == s@.subrange(0, i as int)[k] || k == i by {}
            }
            i = i + 1;
        }
        assert(s@.subrange(0, n as int) == s@);
        true
    }
}

/// Tells whether `c` occurs in `s`.
pub fn contains_char(s: &str, c: char) -> (r: bool)
    ensures
        r == s@.contains(c),
{
    let n = s.unicode_len();
    let mut i: usize = 0;
    while i < n
        invariant
            n == s@.len(),
            i <= n,
            forall|k: int| 0 <= k < i ==> s@[k] != c,
        decreases n - i,
    {
        if s.get_char(i) == c {
            return true;
        }
        i = i + 1;
    }
    false
}

} // verus!

verus! {

/// Settings that steer extraction and help rendering.
#[derive(Debug, Clone, Copy, PartialEq, Eq, Hash)]
pub struct Metadata {
    /// Application name.
    pub app_name: &'static str,
    /// Application description.
    pub app_description: &'static str,
    /// Long name of the help flag, named in the hint that follows an error.
    pub help_flag_name: Option<&'static str>,
    /// In help mode, positional arguments and options resolve from their
    /// default and example values only, and `finish` returns the help text.
    pub help_mode: bool,
    /// Whether the full (multi-line) help is wanted rather than the summary.
    pub full_help: bool,
    /// Which characters a cluster of short flags may hold.
    pub valid_flag_chars: FlagChars,
}

impl Default for Metadata {
    fn default() -> (r: Self)
        ensures
            r.app_name@ == "<APP_NAME>"@,
            r.app_description@ == ""@,
            r.help_flag_name matches Some(h) && h@ == "help"@,
            !r.help_mode,
            !r.full_help,
            r.valid_flag_chars == FlagChars::AsciiAlphabetic,
    {
        Metadata {
            app_name: "<APP_NAME>",
            app_description: "",
            help_flag_name: Some("help"),
            help_mode: false,
            full_help: false,
            valid_flag_chars: FlagChars::AsciiAlphabetic,
        }
    }
}

/// One process argument: its text while it is live, `None` once consumed.
#[derive(Debug)]
pub struct RawArg {
    /// The token text, or `None` once it has been consumed.
    pub value: Option<String>,
}

/// One extraction, as recorded in the log.
#[derive(Debug, PartialEq, Eq, Hash)]
pub enum Taken {
    Arg(Arg),
    Opt(Opt),
    Flag(Flag),
    Cmd(Cmd),
}

impl Clone for Taken {
    fn clone(&self) -> (r: Self)
        ensures
            r == *self,
    {
        match self {
            Taken::Arg(a) => Taken::Arg(a.clone()),
            Taken::Opt(o) => Taken::Opt(o.clone()),
            Taken::Flag(f) => Taken::Flag(*f),
            Taken::Cmd(c) => Taken::Cmd(*c),
        }
    }
}

/// The abstract state of a token store.
pub ghost struct RawArgsView {
    pub metadata: Metadata,
    /// One entry per process argument (the program name included, always `None`).
    pub slots: Seq<Option<Seq<char>>>,
    /// Every extraction so far, in call order.
    pub log: Seq<Taken>,
    /// Environment variables as (name, value) pairs; a later pair overrides an earlier one.
    pub env: Seq<(Seq<char>, Seq<char>)>,
}

/// The value of the environment variable `name`, if it is set.
pub open spec fn env_lookup(env: Seq<(Seq<char>, Seq<char>)>, name: Seq<char>) -> Option<Seq<char>>
    decreases env.len(),
{
    if env.len() == 0 {
        None
    } else if env.last().0 == name {
        Some(env.last().1)
    } else {
        env_lookup(env.drop_last(), name)
    }
}

/// Whether the optional environment variable `name` is set to a non-empty value.
pub open spec fn env_set(env: Seq<(Seq<char>, Seq<char>)>, name: Option<&'static str>) -> bool {
    match name {
        Some(n) => env_lookup(env, n@) matches Some(v) && v.len() > 0,
        None => false,
    }
}

/// Whether index `i` lies in the inclusive range `[min, max]`, an absent bound
/// being no bound.
pub open spec fn in_bounds(min: Option<usize>, max: Option<usize>, i: int) -> bool {
    &&& match min {
        Some(m) => m <= i,
        None => 0 <= i,
    }
    &&& match max {
        Some(m) => i <= m,
        None => true,
    }
}

/// Whether `i` is the first live slot within the bounds.
pub open spec fn is_first_live(
    slots: Seq<Option<Seq<char>>>,
    min: Option<usize>,
    max: Option<usize>,
    i: int,
) -> bool {
    &&& 0 <= i < slots.len()
    &&& in_bounds(min, max, i)
    &&& slots[i] is Some
    &&& forall|j: int| 0 <= j < i && in_bounds(min, max, j) ==> slots[j] is None
}

/// Whether no slot within the bounds is live.
pub open spec fn none_live(slots: Seq<Option<Seq<char>>>, min: Option<usize>, max: Option<usize>) -> bool {
    forall|j: int| 0 <= j < slots.len() && in_bounds(min, max, j) ==> slots[j] is None
}

/// The live slots with their indices, in ascending order of index.
pub open spec fn live_slots(slots: Seq<Option<Seq<char>>>) -> Seq<(int, Seq<char>)>
    decreases slots.len(),
{
    if slots.len() == 0 {
        Seq::empty()
    } else {
        let rest = live_slots(slots.drop_last());
        match slots.last() {
            Some(v) => rest.push(((slots.len() - 1) as int, v)),
            None => rest,
        }
    }
}

/// The process arguments still to be taken, the metadata, and the log.
#[derive(Debug)]
pub struct RawArgs {
    metadata: Metadata,
    raw_args: Vec<RawArg>,
    log: Vec<Taken>,
    env: Vec<(String, String)>,
}

impl View for RawArgs {
    type V = RawArgsView;

    closed spec fn view(&self) -> RawArgsView {
        RawArgsView {
            metadata: self.metadata,
            slots: self.raw_args@.map_values(|a: RawArg| match a.value {
                Some(s) => Some(s@),
                None => None,
            }),
            log: self.log@,
            env: self.env@.map_values(|p: (String, String)| (p.0@, p.1@)),
        }
    }
}

impl RawArgs {
    /// Makes a store from the process arguments; the first (the program name) is
    /// never offered to any specification.
    pub fn new(args: Vec<String>) -> (r: Self)
        ensures
            r@.slots.len() == args@.len(),
            forall|i: int| 0 < i < args@.len() ==> r@.slots[i] == Some(#[trigger] args@[i]@),
            args@.len() > 0 ==> r@.slots[0] is None,
            r@.log.len() == 0,
            r@.env.len() == 0,
            r@.metadata.app_name@ == "<APP_NAME>"@,
            r@.metadata.app_description@ == ""@,
            r@.metadata.help_flag_name matches Some(h) && h@ == "help"@,
            !r@.metadata.help_mode,
            !r@.metadata.full_help,
            r@.metadata.valid_flag_chars == FlagChars::AsciiAlphabetic,
    {
        let mut raw_args: Vec<RawArg> = Vec::new();
        let mut i: usize = 0;
        while i < args.len()
            invariant
                i <= args@.len(),
                raw_args@.len() == i,
                forall|k: int| 0 < k < i ==> raw_args@[k].value == Some(args@[k]),
                i > 0 ==> raw_args@[0].value is None,
            decreases args@.len() - i,
        {
            if i == 0 {
                raw_args.push(RawArg { value: None });
            } else {
                raw_args.push(RawArg { value: Some(args[i].clone()) });
            }
            i = i + 1;
        }
        let r = RawArgs { metadata: Metadata::default(), raw_args, log: Vec::new(), env: Vec::new() };
        assert forall|k: int| 0 < k < args@.len() implies r@.slots[k] == Some(#[trigger] args@[k]@) by {}
        r
    }

    /// Sets an environment variable in the table that environment fallbacks read.
    pub fn set_env_var(&mut self, name: String, value: String)
        ensures
            final(self)@ == (RawArgsView { env: old(self)@.env.push((name@, value@)), ..old(self)@ }),
    {
        self.env.push((name, value));
        proof {
            assert(self@.env =~= old(self)@.env.push((name@, value@)));
            assert(self@.slots =~= old(self)@.slots);
        }
    }

    /// Returns the metadata.
    pub fn metadata(&self) -> (r: Metadata)
        ensures
            r == self@.metadata,
    {
        self.metadata
    }

    /// Returns a mutable reference to the metadata.
    pub fn metadata_mut(&mut self) -> (r: &mut Metadata)
        ensures
            *r == old(self)@.metadata,
            final(self)@ == (RawArgsView { metadata: *final(r), ..old(self)@ }),
    {
        &mut self.metadata
    }

    /// The unconsumed arguments, with their indices, in ascending order of index.
    pub fn remaining_args(&self) -> (r: Vec<(usize, String)>)
        ensures
            r@.len() == live_slots(self@.slots).len(),
            forall|k: int| 0 <= k < r@.len() ==> (#[trigger] r@[k]).0 as int == live_slots(self@.slots)[k].0
                && r@[k].1@ == live_slots(self@.slots)[k].1,
    {
        let mut r: Vec<(usize, String)> = Vec::new();
        let mut i: usize = 0;
        while i < self.raw_args.len()
            invariant
                i <= self.raw_args@.len(),
                r@.len() == live_slots(self@.slots.subrange(0, i as int)).len(),
                forall|k: int| 0 <= k < r@.len() ==> (#[trigger] r@[k]).0 as int
                    == live_slots(self@.slots.subrange(0, i as int))[k].0
                    && r@[k].1@ == live_slots(self@.slots.subrange(0, i as int))[k].1,
            decreases self.raw_args@.len() - i,
        {
            assert(self@.slots.subrange(0, i as int + 1).drop_last() =~= self@.slots.subrange(0, i as int));
            match &self.raw_args[i].value {
                Some(v) => {
                    r.push((i, v.clone()));
                },
                None => {},
            }
            i = i + 1;
        }
        assert(self@.slots.subrange(0, i as int) =~= self@.slots);
        r
    }

    /// Completes the parsing. In help mode, returns the help text; otherwise
    /// fails when the last extraction was a subcommand that was not found, or
    /// when a token was left unconsumed, and returns `Ok(None)` when neither holds.
    pub fn finish(self, is_terminal: bool) -> (r: Result<Option<String>, Error>)
        ensures
            self@.metadata.help_mode ==> (r matches Ok(Some(h)) && h@ == help_text(
                is_terminal,
                self@.metadata,
                self@.log,
            )),
            !self@.metadata.help_mode ==> match r {
                Ok(Some(_)) => false,
                Ok(None) => !command_pending(self@) && none_live(self@.slots, None, None),
                Err(e) => if command_pending(self@) {
                    command_error(self@, e)
                } else {
                    unexpected_error(self@, e)
                },
            },
    {
        if self.metadata.help_mode {
            let help = HelpBuilder::new(&self, is_terminal).build();
            Ok(Some(help))
        } else {
            Error::check_command_error(&self)?;
            Error::check_unexpected_arg(&self)?;
            Ok(None)
        }
    }

    /// Number of slots.
    pub(crate) fn len(&self) -> (r: usize)
        ensures
            r == self@.slots.len(),
    {
        self.raw_args.len()
    }

    /// The text of slot `i`, if it is live.
    pub(crate) fn slot(&self, i: usize) -> (r: Option<&String>)
        requires
            i < self@.slots.len(),
        ensures
            match r {
                Some(s) => self@.slots[i as int] == Some(s@),
                None => self@.slots[i as int] is None,
            },
    {
        match &self.raw_args[i].value {
            Some(s) => Some(s),
            None => None,
        }
    }

    /// Consumes slot `i` and hands out its text.
    pub(crate) fn consume(&mut self, i: usize) -> (r: Option<String>)
        requires
            i < old(self)@.slots.len(),
        ensures
            final(self)@ == (RawArgsView { slots: old(self)@.slots.update(i as int, None), ..old(self)@ }),
            match r {
                Some(s) => old(self)@.slots[i as int] == Some(s@),
                None => old(self)@.slots[i as int] is None,
            },
    {
        let taken = self.raw_args[i].value.take();
        proof {
            assert(self@.slots =~= old(self)@.slots.update(i as int, None));
        }
        taken
    }

    /// Replaces the text of slot `i`.
    pub(crate) fn replace(&mut self, i: usize, s: String)
        requires
            i < old(self)@.slots.len(),
        ensures
            final(self)@ == (RawArgsView { slots: old(self)@.slots.update(i as int, Some(s@)), ..old(self)@ }),
    {
        self.raw_args.set(i, RawArg { value: Some(s) });
        proof {
            assert(self@.slots =~= old(self)@.slots.update(i as int, Some(s@)));
        }
    }

    /// Appends an extraction to the log.
    pub(crate) fn record(&mut self, t: Taken)
        ensures
            final(self)@ == (RawArgsView { log: old(self)@.log.push(t), ..old(self)@ }),
    {
        self.log.push(t);
        proof {
            assert(self@.slots =~= old(self)@.slots);
        }
    }

    /// The first live slot within `[min, max]`.
    pub(crate) fn first_live(&self, min: Option<usize>, max: Option<usize>) -> (r: Option<usize>)
        ensures
            match r {
                Some(i) => is_first_live(self@.slots, min, max, i as int),
                None => none_live(self@.slots, min, max),
            },
    {
        let n = self.raw_args.len();
        let mut i: usize = match min {
            Some(m) => m,
            None => 0,
        };
        while i < n
            invariant
                n == self@.slots.len(),
                min matches Some(m) ==> m <= i,
                forall|j: int| 0 <= j < i && j < n && in_bounds(min, max, j) ==> self@.slots[j] is None,
            decreases n - i,
        {
            if let Some(m) = max {
                if i > m {
                    return None;
                }
            }
            if self.raw_args[i].value.is_some() {
                return Some(i);
            }
            i = i + 1;
        }
        None
    }

    /// The log of extractions.
    pub(crate) fn log(&self) -> (r: &Vec<Taken>)
        ensures
            r@ == self@.log,
    {
        &self.log
    }

    /// The value of environment variable `name`, if it is set and not empty.
    pub(crate) fn env_value(&self, name: Option<&'static str>) -> (r: Option<String>)
        ensures
            env_set(self@.env, name) <==> r is Some,
            r matches Some(v) ==> name matches Some(n) && env_lookup(self@.env, n@) == Some(v@),
    {
        let n = match name {
            Some(n) => n,
            None => return None,
        };
        let mut i = self.env.len();
        assert(self@.env.subrange(0, i as int) =~= self@.env);
        while i > 0
            invariant
                i <= self.env@.len(),
                name == Some(n),
                env_lookup(self@.env, n@) == env_lookup(self@.env.subrange(0, i as int), n@),
            decreases i,
        {
            let ghost pre = self@.env.subrange(0, i as int);
            assert(pre.last() == (self.env@[i - 1].0@, self.env@[i - 1].1@));
            assert(pre.drop_last() =~= self@.env.subrange(0, i - 1));
            if str_eq(self.env[i - 1].0.as_str(), n) {
                assert(pre.len() > 0 && pre.last().0 == n@);
                assert(env_lookup(pre, n@) == Some(pre.last().1));
                if self.env[i - 1].1.as_str().unicode_len() == 0 {
                    return None;
                }
                return Some(self.env[i - 1].1.clone());
            }
            i = i - 1;
        }
        None
    }
}

} // verus!
