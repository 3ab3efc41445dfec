//! Imperative command-line argument parsing: specifications are declared one at a
//! time and each one takes the first raw tokens that match it.
//!
//! A [`RawArgs`] store holds one slot per process argument. Taking a positional
//! argument ([`ArgSpec`]), an option ([`OptSpec`]), a flag ([`FlagSpec`]) or a
//! subcommand ([`CmdSpec`]) consumes the slots it matched, leaving every other
//! slot at its index, and appends the result to the store's log. At the end,
//! [`RawArgs::finish`] reports leftover tokens or a missing subcommand, or, in
//! help mode, renders the help text from the log.
//!
//! The contracts are stated over [`args::RawArgsView`]: each specification's
//! `taken` predicate says exactly which result a take yields and which slots it
//! leaves behind; [`laws`] proves how successive takes relate.
use vstd::prelude::*;

pub mod arg;
pub mod args;
pub mod cmd;
pub mod error;
pub mod flag;
pub mod formatter;
pub mod help;
pub mod laws;
pub mod opt;
pub mod text;

pub use crate::arg::{Arg, ArgSpec};
pub use crate::args::{FlagChars, Metadata, RawArgs};
pub use crate::cmd::{Cmd, CmdSpec};
pub use crate::error::Error;
pub use crate::flag::{Flag, FlagSpec};
pub use crate::opt::{Opt, OptSpec};

verus! {

/// Makes a positional-argument specification with the given name.
///
/// Conventional names: `<NAME>` (required), `[NAME]` (optional), `[NAME]...`
/// (zero or more), `<NAME>...` (one or more).
pub fn arg(name: &'static str) -> (r: ArgSpec)
    ensures
        r.name == name,
        r.doc@ == ""@,
        r.default is None,
        r.example is None,
        r.min_index is None,
        r.max_index is None,
{
    ArgSpec::new(name)
}

/// Makes an option specification with the given long name.
pub fn opt(name: &'static str) -> (r: OptSpec)
    ensures
        r.name == name,
        r.short is None,
        r.ty@ == "VALUE"@,
        r.doc@ == ""@,
        r.env is None,
        r.default is None,
        r.example is None,
        r.min_index is None,
        r.max_index is None,
{
    OptSpec::new(name)
}

/// Makes a flag specification with the given long name.
pub fn flag(name: &'static str) -> (r: FlagSpec)
    ensures
        r.name == name,
        r.short is None,
        r.doc@ == ""@,
        r.env is None,
        r.min_index is None,
        r.max_index is None,
{
    FlagSpec::new(name)
}

/// Makes a subcommand specification with the given name.
pub fn cmd(name: &'static str) -> (r: CmdSpec)
    ensures
        r.name == name,
        r.doc@ == ""@,
        !r.anywhere,
{
    CmdSpec::new(name)
}

/// The well-known help flag: `--help` (full help) or `-h` (summary).
pub fn help_flag() -> (r: FlagSpec)
    ensures
        r.name@ == "help"@,
        r.short == Some('h'),
        r.doc@ == "Print help ('--help' for full help, '-h' for summary)"@,
        r.env is None,
        r.min_index is None,
        r.max_index is None,
{
    FlagSpec::new("help").short('h').doc("Print help ('--help' for full help, '-h' for summary)")
}

/// The well-known version flag: `--version`.
pub fn version_flag() -> (r: FlagSpec)
    ensures
        r.name@ == "version"@,
        r.short is None,
        r.doc@ == "Print version"@,
        r.env is None,
        r.min_index is None,
        r.max_index is None,
{
    FlagSpec::new("version").doc("Print version")
}

} // verus!
