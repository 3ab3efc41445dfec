//! Errors: leftover tokens, a missing or unknown subcommand, and values that are
//! missing or that the caller rejected.
use vstd::prelude::*;
use vstd::string::*;

use crate::arg::Arg;
use crate::args::{is_first_live, none_live, Metadata, RawArgs, RawArgsView, Taken};
use crate::cmd::Cmd;
use crate::formatter::{bold_text, Formatter};
use crate::opt::Opt;
use crate::text::{debug_quote, debug_quoted, push_char};

verus! {

/// What went wrong.
#[derive(Debug)]
#[non_exhaustive]
#[allow(inconsistent_fields)]
pub enum Error {
    /// A token was left unconsumed.
    UnexpectedArg { metadata: Metadata, raw_arg: String },
    /// A subcommand was expected, and this token is none of those declared.
    UndefinedCommand { metadata: Metadata, raw_arg: String },
    /// A subcommand was expected and no token was left.
    MissingCommand { metadata: Metadata },
    /// The caller rejected the argument's value.
    InvalidArg { arg: Box<Arg>, reason: String },
    /// A required argument was absent.
    MissingArg { arg: Box<Arg> },
    /// The caller rejected the option's value.
    InvalidOpt { opt: Box<Opt>, reason: String },
    /// A required option, or its value, was absent.
    MissingOpt { opt: Box<Opt> },
    /// An error of the application, with its message.
    Other { metadata: Option<Metadata>, error: String },
}

impl<T: std::fmt::Display> From<T> for Error {
    /// Wraps any displayable error, without metadata; its message is what
    /// `error.to_string()` gives.
    fn from(error: T) -> (r: Self)
        ensures
            r matches Error::Other { metadata, error: message } && metadata is None
                && to_string_from_display_ensures::<T>(&error, message),
    {
        Error::Other { metadata: None, error: error.to_string() }
    }
}

impl<T: std::fmt::Display> vstd::std_specs::convert::FromSpecImpl<T> for Error {
    /// The message of a displayed value is not specified, so no exact result is promised.
    open spec fn obeys_from_spec() -> bool {
        false
    }

    open spec fn from_spec(v: T) -> Self {
        arbitrary()
    }
}

/// Whether the last extraction logged is a subcommand that was not found.
pub open spec fn command_pending(v: RawArgsView) -> bool {
    v.log.len() > 0 && (v.log.last() matches Taken::Cmd(c) && c is Absent)
}

/// The error for a subcommand that was not found: the next live token when
/// there is one, else the want of any.
pub open spec fn command_error(v: RawArgsView, e: Error) -> bool {
    match e {
        Error::UndefinedCommand { metadata, raw_arg } => {
            &&& metadata == v.metadata
            &&& exists|i: int| is_first_live(v.slots, None, None, i) && v.slots[i] == Some(raw_arg@)
        },
        Error::MissingCommand { metadata } => {
            &&& metadata == v.metadata
            &&& none_live(v.slots, None, None)
        },
        _ => false,
    }
}

/// The error that names the first token left unconsumed.
pub open spec fn unexpected_error(v: RawArgsView, e: Error) -> bool {
    match e {
        Error::UnexpectedArg { metadata, raw_arg } => {
            &&& metadata == v.metadata
            &&& exists|i: int| is_first_live(v.slots, None, None, i) && v.slots[i] == Some(raw_arg@)
        },
        _ => false,
    }
}

/// The hint that names the help flag, when one is configured.
pub open spec fn help_hint(is_terminal: bool, md: Metadata) -> Seq<char> {
    match md.help_flag_name {
        Some(h) => "\n\nTry '"@ + bold_text(is_terminal, "--"@ + h@) + "' for more information."@,
        None => Seq::empty(),
    }
}

/// The hint for errors that may carry no metadata.
pub open spec fn help_hint_if(is_terminal: bool, md: Option<Metadata>) -> Seq<char> {
    match md {
        Some(m) => help_hint(is_terminal, m),
        None => Seq::empty(),
    }
}

/// How an option is named in the message that rejects its value.
pub open spec fn opt_label(is_terminal: bool, opt: Opt) -> Seq<char> {
    match opt {
        Opt::Short { spec, .. } if spec.short is Some => "argument '"@ + bold_text(
            is_terminal,
            seq!['-', spec.short->Some_0],
        ) + "'"@,
        Opt::Env { spec, .. } if spec.env is Some => "environment variable '"@ + bold_text(
            is_terminal,
            spec.env->Some_0@,
        ) + "' for '"@ + bold_text(is_terminal, "--"@ + spec.name@) + "'"@,
        _ => "argument '"@ + bold_text(is_terminal, "--"@ + opt.spec_of().name@) + "'"@,
    }
}

/// The message that reports an option without its value.
pub open spec fn missing_opt_text(is_terminal: bool, opt: Opt) -> Seq<char> {
    match opt {
        Opt::MissingValue { spec, long } => if !long && spec.short is Some {
            "missing '"@ + bold_text(is_terminal, seq!['-', spec.short->Some_0]) + "' value"@
        } else {
            "missing '"@ + bold_text(is_terminal, "--"@ + spec.name@) + "' value"@
        },
        _ => "missing '"@ + bold_text(is_terminal, "--"@ + opt.spec_of().name@) + "' option"@,
    }
}

impl Error {
    /// The message, followed by the help hint where the metadata asks for one.
    pub open spec fn text(&self, is_terminal: bool) -> Seq<char> {
        match self {
            Error::UnexpectedArg { metadata, raw_arg } => "unexpected argument '"@ + bold_text(
                is_terminal,
                raw_arg@,
            ) + "' found"@ + help_hint(is_terminal, *metadata),
            Error::UndefinedCommand { metadata, raw_arg } => "'"@ + bold_text(is_terminal, raw_arg@)
                + "' command is not defined"@ + help_hint(is_terminal, *metadata),
            Error::MissingCommand { metadata } => "command is not specified"@ + help_hint(
                is_terminal,
                *metadata,
            ),
            Error::InvalidArg { arg, reason } => "argument '"@ + bold_text(
                is_terminal,
                arg.spec_of().name@,
            ) + "' has an invalid value "@ + debug_quoted(arg.value_of()) + ": "@ + reason@
                + help_hint_if(is_terminal, arg.metadata_of()),
            Error::MissingArg { arg } => "missing argument '"@ + bold_text(
                is_terminal,
                arg.spec_of().name@,
            ) + "'"@ + help_hint_if(is_terminal, arg.metadata_of()),
            Error::InvalidOpt { opt, reason } => opt_label(is_terminal, **opt)
                + " has an invalid value "@ + debug_quoted(opt.value_of()) + ": "@ + reason@
                + help_hint_if(is_terminal, opt.metadata_of()),
            Error::MissingOpt { opt } => missing_opt_text(is_terminal, **opt) + help_hint_if(
                is_terminal,
                opt.metadata_of(),
            ),
            Error::Other { metadata, error } => error@ + help_hint_if(is_terminal, *metadata),
        }
    }

    /// Makes an application error that carries the store's metadata; its
    /// message is what `error.to_string()` gives.
    pub fn other<E: std::fmt::Display>(args: &RawArgs, error: E) -> (r: Self)
        ensures
            r matches Error::Other { metadata, error: message } && metadata == Some(args@.metadata)
                && to_string_from_display_ensures::<E>(&error, message),
    {
        Error::Other { metadata: Some(args.metadata()), error: error.to_string() }
    }

    /// Fails when the last extraction was a subcommand that was not found: with
    /// the next live token when there is one, else because none is left.
    pub fn check_command_error(args: &RawArgs) -> (r: Result<(), Error>)
        ensures
            r is Ok <==> !command_pending(args@),
            r matches Err(e) ==> command_error(args@, e),
    {
        let log = args.log();
        let n = log.len();
        if n == 0 {
            return Ok(());
        }
        match &log[n - 1] {
            Taken::Cmd(Cmd::Absent { .. }) => {},
            _ => return Ok(()),
        }
        match args.first_live(None, None) {
            Some(i) => {
                let raw_arg = args.slot(i).unwrap().clone();
                Err(Error::UndefinedCommand { metadata: args.metadata(), raw_arg })
            },
            None => Err(Error::MissingCommand { metadata: args.metadata() }),
        }
    }

    /// Fails with the first live token, if any is left.
    pub fn check_unexpected_arg(args: &RawArgs) -> (r: Result<(), Error>)
        ensures
            r is Ok <==> none_live(args@.slots, None, None),
            r matches Err(e) ==> unexpected_error(args@, e),
    {
        match args.first_live(None, None) {
            Some(i) => {
                let raw_arg = args.slot(i).unwrap().clone();
                Err(Error::UnexpectedArg { metadata: args.metadata(), raw_arg })
            },
            None => Ok(()),
        }
    }

    /// Writes `--name` in bold.
    fn write_long_name(fmt: &mut Formatter, name: &str)
        ensures
            final(fmt)@ == old(fmt)@ + bold_text(old(fmt).for_terminal(), "--"@ + name@),
            final(fmt).for_terminal() == old(fmt).for_terminal(),
    {
        let mut s = String::from_str("--");
        s.append(name);
        let b = fmt.bold(s.as_str());
        fmt.write(b.as_str());
    }

    /// Writes `-c` in bold.
    fn write_short_name(fmt: &mut Formatter, c: char)
        ensures
            final(fmt)@ == old(fmt)@ + bold_text(old(fmt).for_terminal(), seq!['-', c]),
            final(fmt).for_terminal() == old(fmt).for_terminal(),
    {
        let mut s = String::from_str("-");
        push_char(&mut s, c);
        proof {
            reveal_strlit("-");
            assert(s@ =~= seq!['-', c]);
        }
        let b = fmt.bold(s.as_str());
        fmt.write(b.as_str());
    }

    /// Writes the hint that names the help flag, when one is configured.
    fn write_help_line(fmt: &mut Formatter, metadata: Metadata)
        ensures
            final(fmt)@ == old(fmt)@ + help_hint(old(fmt).for_terminal(), metadata),
            final(fmt).for_terminal() == old(fmt).for_terminal(),
    {
        if let Some(h) = metadata.help_flag_name {
            fmt.write("\n\nTry '");
            Self::write_long_name(fmt, h);
            fmt.write("' for more information.");
            assert(fmt@ =~= old(fmt)@ + help_hint(old(fmt).for_terminal(), metadata));
        } else {
            assert(fmt@ =~= old(fmt)@ + help_hint(old(fmt).for_terminal(), metadata));
        }
    }

    /// Writes the hint when there is metadata.
    fn write_help_line_if(fmt: &mut Formatter, metadata: Option<Metadata>)
        ensures
            final(fmt)@ == old(fmt)@ + help_hint_if(old(fmt).for_terminal(), metadata),
            final(fmt).for_terminal() == old(fmt).for_terminal(),
    {
        match metadata {
            Some(m) => Self::write_help_line(fmt, m),
            None => {
                assert(fmt@ =~= old(fmt)@ + help_hint_if(old(fmt).for_terminal(), metadata));
            },
        }
    }

    /// Renders the message, with bold names when writing for a terminal.
    pub fn to_string(&self, is_terminal: bool) -> (r: String)
        ensures
            r@ == self.text(is_terminal),
    {
        let mut fmt = Formatter::new(is_terminal);
        match self {
            Error::UnexpectedArg { metadata, raw_arg } => {
                fmt.write("unexpected argument '");
                let b = fmt.bold(raw_arg.as_str());
                fmt.write(b.as_str());
                fmt.write("' found");
                Self::write_help_line(&mut fmt, *metadata);
            },
            Error::UndefinedCommand { metadata, raw_arg } => {
                fmt.write("'");
                let b = fmt.bold(raw_arg.as_str());
                fmt.write(b.as_str());
                fmt.write("' command is not defined");
                Self::write_help_line(&mut fmt, *metadata);
            },
            Error::MissingCommand { metadata } => {
                fmt.write("command is not specified");
                Self::write_help_line(&mut fmt, *metadata);
            },
            Error::InvalidArg { arg, reason } => {
                fmt.write("argument '");
                let b = fmt.bold(arg.spec().name);
                fmt.write(b.as_str());
                fmt.write("' has an invalid value ");
                let q = debug_quote(arg.value());
                fmt.write(q.as_str());
                fmt.write(": ");
                fmt.write(reason.as_str());
                Self::write_help_line_if(&mut fmt, arg.metadata());
            },
            Error::MissingArg { arg } => {
                fmt.write("missing argument '");
                let b = fmt.bold(arg.spec().name);
                fmt.write(b.as_str());
                fmt.write("'");
                Self::write_help_line_if(&mut fmt, arg.metadata());
            },
            Error::InvalidOpt { opt, reason } => {
                let spec = opt.spec();
                match &**opt {
                    Opt::Short { .. } if spec.short.is_some() => {
                        fmt.write("argument '");
                        Self::write_short_name(&mut fmt, spec.short.unwrap());
                        fmt.write("'");
                    },
                    Opt::Env { .. } if spec.env.is_some() => {
                        fmt.write("environment variable '");
                        let b = fmt.bold(spec.env.unwrap());
                        fmt.write(b.as_str());
                        fmt.write("' for '");
                        Self::write_long_name(&mut fmt, spec.name);
                        fmt.write("'");
                    },
                    _ => {
                        fmt.write("argument '");
                        Self::write_long_name(&mut fmt, spec.name);
                        fmt.write("'");
                    },
                }
                fmt.write(" has an invalid value ");
                let q = debug_quote(opt.value());
                fmt.write(q.as_str());
                fmt.write(": ");
                fmt.write(reason.as_str());
                Self::write_help_line_if(&mut fmt, opt.metadata());
            },
            Error::MissingOpt { opt } => {
                let spec = opt.spec();
                match &**opt {
                    Opt::MissingValue { long, .. } => {
                        fmt.write("missing '");
                        if !*long && spec.short.is_some() {
                            Self::write_short_name(&mut fmt, spec.short.unwrap());
                        } else {
                            Self::write_long_name(&mut fmt, spec.name);
                        }
                        fmt.write("' value");
                    },
                    _ => {
                        fmt.write("missing '");
                        Self::write_long_name(&mut fmt, spec.name);
                        fmt.write("' option");
                    },
                }
                Self::write_help_line_if(&mut fmt, opt.metadata());
            },
            Error::Other { metadata, error } => {
                fmt.write(error.as_str());
                Self::write_help_line_if(&mut fmt, *metadata);
            },
        }
        let r = fmt.finish();
        assert(r@ =~= self.text(is_terminal));
        r
    }
}

} // verus!
