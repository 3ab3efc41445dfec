//! Positional arguments: a specification takes the first live token in its range,
//! whatever its text.
use vstd::prelude::*;
use vstd::string::*;

use crate::args::{is_first_live, none_live, Metadata, RawArgs, RawArgsView, Taken};
use crate::error::Error;

verus! {

/// Specification of a positional argument.
#[derive(Debug, Clone, Copy, PartialEq, Eq, Hash)]
pub struct ArgSpec {
    /// Value name (for example `<FILE>` or `[FILE]...`).
    pub name: &'static str,
    /// Documentation.
    pub doc: &'static str,
    /// Value used when no token is left.
    pub default: Option<&'static str>,
    /// Example value; an argument that has one is shown as required in the help.
    pub example: Option<&'static str>,
    /// Lowest slot index this argument may take (inclusive).
    pub min_index: Option<usize>,
    /// Highest slot index this argument may take (inclusive).
    pub max_index: Option<usize>,
}

impl ArgSpec {
    /// Makes a specification with the given name and nothing else set.
    pub fn new(name: &'static str) -> (r: Self)
        ensures
            r.name == name,
            r.doc@ == ""@,
            r.default is None,
            r.example is None,
            r.min_index is None,
            r.max_index is None,
    {
        ArgSpec { name, doc: "", default: None, example: None, min_index: None, max_index: None }
    }

    /// Sets the documentation.
    pub fn doc(self, doc: &'static str) -> (r: Self)
        ensures
            r == (ArgSpec { doc, ..self }),
    {
        ArgSpec { doc, ..self }
    }

    /// Sets the default value.
    pub fn default(self, default: &'static str) -> (r: Self)
        ensures
            r == (ArgSpec { default: Some(default), ..self }),
    {
        ArgSpec { default: Some(default), ..self }
    }

    /// Sets the example value.
    pub fn example(self, example: &'static str) -> (r: Self)
        ensures
            r == (ArgSpec { example: Some(example), ..self }),
    {
        ArgSpec { example: Some(example), ..self }
    }

    /// Sets the lowest slot index this argument may take.
    pub fn min_index(self, index: usize) -> (r: Self)
        ensures
            r == (ArgSpec { min_index: Some(index), ..self }),
    {
        ArgSpec { min_index: Some(index), ..self }
    }

    /// Sets the highest slot index this argument may take.
    pub fn max_index(self, index: usize) -> (r: Self)
        ensures
            r == (ArgSpec { max_index: Some(index), ..self }),
    {
        ArgSpec { max_index: Some(index), ..self }
    }

    /// What taking `self` from a store in state `before` yields: the result `r`
    /// and the slots `after`.
    pub open spec fn taken(self, before: RawArgsView, r: Arg, after: Seq<Option<Seq<char>>>) -> bool {
        let md = before.metadata;
        let slots = before.slots;
        match r {
            Arg::Positional { spec, metadata, index, value } => {
                &&& spec == self
                &&& metadata == md
                &&& !md.help_mode
                &&& is_first_live(slots, self.min_index, self.max_index, index as int)
                &&& slots[index as int] == Some(value@)
                &&& after == slots.update(index as int, None)
            },
            Arg::Default { spec, metadata } => {
                &&& spec == self
                &&& metadata == md
                &&& self.default is Some
                &&& (md.help_mode || none_live(slots, self.min_index, self.max_index))
                &&& after == slots
            },
            Arg::Example { spec, metadata } => {
                &&& spec == self
                &&& metadata == md
                &&& md.help_mode
                &&& self.default is None
                &&& self.example is Some
                &&& after == slots
            },
            Arg::Absent { spec } => {
                &&& spec == self
                &&& self.default is None
                &&& (md.help_mode ==> self.example is None)
                &&& (!md.help_mode ==> none_live(slots, self.min_index, self.max_index))
                &&& after == slots
            },
        }
    }

    /// Takes the first live token within the range; in help mode no token is
    /// looked at. Falls back to the default value, then (in help mode only) to the
    /// example value. The result is appended to the log.
    pub fn take(self, args: &mut RawArgs) -> (r: Arg)
        ensures
            self.taken(old(args)@, r, final(args)@.slots),
            final(args)@.metadata == old(args)@.metadata,
            final(args)@.env == old(args)@.env,
            final(args)@.log == old(args)@.log.push(Taken::Arg(r)),
    {
        let metadata = args.metadata();
        let r = if metadata.help_mode {
            if self.default.is_some() {
                Arg::Default { spec: self, metadata }
            } else if self.example.is_some() {
                Arg::Example { spec: self, metadata }
            } else {
                Arg::Absent { spec: self }
            }
        } else {
            match args.first_live(self.min_index, self.max_index) {
                Some(index) => {
                    let value = args.consume(index).unwrap();
                    Arg::Positional { spec: self, metadata, index, value }
                },
                None => {
                    if self.default.is_some() {
                        Arg::Default { spec: self, metadata }
                    } else {
                        Arg::Absent { spec: self }
                    }
                },
            }
        };
        args.record(Taken::Arg(r.clone()));
        r
    }
}

/// A positional argument, as taken.
#[derive(Debug, PartialEq, Eq, Hash)]
pub enum Arg {
    /// The live token at `index`.
    Positional { spec: ArgSpec, metadata: Metadata, index: usize, value: String },
    /// The specification's default value.
    Default { spec: ArgSpec, metadata: Metadata },
    /// The specification's example value (help mode only).
    Example { spec: ArgSpec, metadata: Metadata },
    /// Nothing.
    Absent { spec: ArgSpec },
}

impl Clone for Arg {
    fn clone(&self) -> (r: Self)
        ensures
            r == *self,
    {
        match self {
            Arg::Positional { spec, metadata, index, value } => Arg::Positional {
                spec: *spec,
                metadata: *metadata,
                index: *index,
                value: value.clone(),
            },
            Arg::Default { spec, metadata } => Arg::Default { spec: *spec, metadata: *metadata },
            Arg::Example { spec, metadata } => Arg::Example { spec: *spec, metadata: *metadata },
            Arg::Absent { spec } => Arg::Absent { spec: *spec },
        }
    }
}

impl Arg {
    /// The specification this argument was taken by.
    pub open spec fn spec_of(&self) -> ArgSpec {
        match self {
            Arg::Positional { spec, .. } => *spec,
            Arg::Default { spec, .. } => *spec,
            Arg::Example { spec, .. } => *spec,
            Arg::Absent { spec } => *spec,
        }
    }

    /// The value: the token text, the default or the example; empty when absent.
    pub open spec fn value_of(&self) -> Seq<char> {
        match self {
            Arg::Positional { value, .. } => value@,
            Arg::Default { spec, .. } => match spec.default {
                Some(d) => d@,
                None => Seq::empty(),
            },
            Arg::Example { spec, .. } => match spec.example {
                Some(e) => e@,
                None => Seq::empty(),
            },
            Arg::Absent { .. } => Seq::empty(),
        }
    }

    /// Returns the specification of this argument.
    pub fn spec(&self) -> (r: ArgSpec)
        ensures
            r == self.spec_of(),
    {
        match self {
            Arg::Positional { spec, .. } => *spec,
            Arg::Default { spec, .. } => *spec,
            Arg::Example { spec, .. } => *spec,
            Arg::Absent { spec } => *spec,
        }
    }

    /// Returns `true` if this argument has a value.
    pub fn is_present(&self) -> (r: bool)
        ensures
            r == !(self is Absent),
    {
        !matches!(self, Arg::Absent { .. })
    }

    /// Returns `Some(self)` if this argument is present.
    pub fn present(self) -> (r: Option<Self>)
        ensures
            r == (if self is Absent { None } else { Some(self) }),
    {
        if self.is_present() {
            Some(self)
        } else {
            None
        }
    }

    /// Applies a conversion or validation to a present argument.
    ///
    /// Fails with `MissingArg` when the argument is absent, and with `InvalidArg`
    /// when `f` fails.
    pub fn and_then<F, T, E>(self, f: F) -> (r: Result<T, Error>) where
        F: FnOnce(Self) -> Result<T, E>,
        E: std::fmt::Display,

        requires
            !(self is Absent) ==> f.requires((self,)),
        ensures
            self is Absent ==> (r matches Err(Error::MissingArg { arg }) && *arg == self),
            !(self is Absent) ==> match r {
                Ok(t) => f.ensures((self,), Ok(t)),
                Err(e) => {
                    &&& (e matches Error::InvalidArg { arg, reason } && *arg == self && exists|x: E|
                        f.ensures((self,), Err(x)) && to_string_from_display_ensures::<E>(&x, reason))
                },
            },
    {
        if !self.is_present() {
            return Err(Error::MissingArg { arg: Box::new(self) });
        }
        let copy = self.clone();
        match f(copy) {
            Ok(t) => Ok(t),
            Err(e) => {
                let reason = e.to_string();
                assert(f.ensures((self,), Err(e)) && to_string_from_display_ensures::<E>(&e, reason));
                assert(exists|x: E| f.ensures((self,), Err(x)) && to_string_from_display_ensures::<E>(&x, reason));
                let r = Err(Error::InvalidArg { arg: Box::new(self), reason });
                assert(r matches Err(Error::InvalidArg { reason: given, .. }) && given == reason);
                r
            },
        }
    }

    /// Like `then`, but an absent argument gives `Ok(None)`.
    pub fn present_and_then<F, T, E>(self, f: F) -> (r: Result<Option<T>, Error>) where
        F: FnOnce(Self) -> Result<T, E>,
        E: std::fmt::Display,

        requires
            !(self is Absent) ==> f.requires((self,)),
        ensures
            self is Absent ==> r == Ok::<Option<T>, Error>(None),
            !(self is Absent) ==> match r {
                Ok(Some(t)) => f.ensures((self,), Ok(t)),
                Ok(None) => false,
                Err(e) => {
                    &&& (e matches Error::InvalidArg { arg, reason } && *arg == self && exists|x: E|
                        f.ensures((self,), Err(x)) && to_string_from_display_ensures::<E>(&x, reason))
                },
            },
    {
        if !self.is_present() {
            return Ok(None);
        }
        match self.and_then(f) {
            Ok(t) => Ok(Some(t)),
            Err(e) => Err(e),
        }
    }

    /// Returns the value of this argument, or an empty string if absent.
    pub fn value(&self) -> (r: &str)
        ensures
            r@ == self.value_of(),
    {
        proof {
            reveal_strlit("");
        }
        match self {
            Arg::Positional { value, .. } => value.as_str(),
            Arg::Default { spec, .. } => match spec.default {
                Some(d) => d,
                None => "",
            },
            Arg::Example { spec, .. } => match spec.example {
                Some(e) => e,
                None => "",
            },
            Arg::Absent { .. } => "",
        }
    }

    /// The index of the token this was taken from, if any.
    pub open spec fn index_of(&self) -> Option<usize> {
        (match self {
                Arg::Positional { index, .. } => Some(*index),
                _ => None,
            })
    }

    /// Returns the index of the token this argument was taken from.
    pub fn index(&self) -> (r: Option<usize>)
        ensures
            r == self.index_of(),
    {
        match self {
            Arg::Positional { index, .. } => Some(*index),
            _ => None,
        }
    }

    /// The metadata in force when this argument was taken, if it has a value.
    pub open spec fn metadata_of(&self) -> Option<Metadata> {
        (match self {
                Arg::Positional { metadata, .. } => Some(*metadata),
                Arg::Default { metadata, .. } => Some(*metadata),
                Arg::Example { metadata, .. } => Some(*metadata),
                Arg::Absent { .. } => None::<Metadata>,
            })
    }

    /// The metadata in force when this argument was taken, unless it is absent.
    pub(crate) fn metadata(&self) -> (r: Option<Metadata>)
        ensures
            r == self.metadata_of(),
    {
        match self {
            Arg::Positional { metadata, .. } => Some(*metadata),
            Arg::Default { metadata, .. } => Some(*metadata),
            Arg::Example { metadata, .. } => Some(*metadata),
            Arg::Absent { .. } => None,
        }
    }
}

} // verus!
