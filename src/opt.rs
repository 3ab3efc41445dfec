//! Options: named arguments with a value, given as `--name=value`,
//! `--name value`, `-x=value`, `-x value` or `-xvalue`.
use vstd::prelude::*;
use vstd::string::*;

use crate::args::{env_lookup, env_set, in_bounds, Metadata, RawArgs, RawArgsView, Taken};
use crate::error::Error;
use crate::text::{has_prefix, starts_with, suffix};

verus! {

/// Specification of an option.
#[derive(Debug, Clone, Copy, PartialEq, Eq, Hash)]
pub struct OptSpec {
    /// Long name, matched by `--name`.
    pub name: &'static str,
    /// Short name, matched by `-x`.
    pub short: Option<char>,
    /// Value type, shown in the help as `<TYPE>`.
    pub ty: &'static str,
    /// Documentation.
    pub doc: &'static str,
    /// Environment variable whose non-empty value stands in when the option is not given.
    pub env: Option<&'static str>,
    /// Value used when the option is not given.
    pub default: Option<&'static str>,
    /// Example value; an option that has one is shown as required in the help.
    pub example: Option<&'static str>,
    /// Lowest slot index this option may take (inclusive).
    pub min_index: Option<usize>,
    /// Highest slot index this option may take (inclusive).
    pub max_index: Option<usize>,
}

/// How a token answers an option specification.
pub ghost enum OptHit {
    Miss,
    /// `--name=value`.
    LongEq(Seq<char>),
    /// `--name`, the value in the next slot.
    LongPending,
    /// `-x=value` or `-xvalue`.
    ShortAttached(Seq<char>),
    /// `-x`, the value in the next slot.
    ShortPending,
}

/// How a token answers an option specification, with the value when it is attached.
enum Hit {
    Miss,
    LongEq(String),
    LongPending,
    ShortAttached(String),
    ShortPending,
}

impl Hit {
    spec fn model(&self) -> OptHit {
        match self {
            Hit::Miss => OptHit::Miss,
            Hit::LongEq(v) => OptHit::LongEq(v@),
            Hit::LongPending => OptHit::LongPending,
            Hit::ShortAttached(v) => OptHit::ShortAttached(v@),
            Hit::ShortPending => OptHit::ShortPending,
        }
    }
}

impl OptSpec {
    /// Makes a specification with the given long name, value type `VALUE`, and
    /// nothing else set.
    pub fn new(name: &'static str) -> (r: Self)
        ensures
            r.name == name,
            r.short is None,
            r.ty@ == "VALUE"@,
            r.doc@ == ""@,
            r.env is None,
            r.default is None,
            r.example is None,
            r.min_index is None,
            r.max_index is None,
    {
        OptSpec {
            name,
            short: None,
            ty: "VALUE",
            doc: "",
            env: None,
            default: None,
            example: None,
            min_index: None,
            max_index: None,
        }
    }

    /// Sets the short name.
    pub fn short(self, name: char) -> (r: Self)
        ensures
            r == (OptSpec { short: Some(name), ..self }),
    {
        OptSpec { short: Some(name), ..self }
    }

    /// Sets the value type.
    pub fn ty(self, value_type: &'static str) -> (r: Self)
        ensures
            r == (OptSpec { ty: value_type, ..self }),
    {
        OptSpec { ty: value_type, ..self }
    }

    /// Sets the documentation.
    pub fn doc(self, doc: &'static str) -> (r: Self)
        ensures
            r == (OptSpec { doc, ..self }),
    {
        OptSpec { doc, ..self }
    }

    /// Sets the environment variable.
    pub fn env(self, variable_name: &'static str) -> (r: Self)
        ensures
            r == (OptSpec { env: Some(variable_name), ..self }),
    {
        OptSpec { env: Some(variable_name), ..self }
    }

    /// Sets the default value.
    pub fn default(self, default: &'static str) -> (r: Self)
        ensures
            r == (OptSpec { default: Some(default), ..self }),
    {
        OptSpec { default: Some(default), ..self }
    }

    /// Sets the example value.
    pub fn example(self, example: &'static str) -> (r: Self)
        ensures
            r == (OptSpec { example: Some(example), ..self }),
    {
        OptSpec { example: Some(example), ..self }
    }

    /// Sets the lowest slot index this option may take.
    pub fn min_index(self, index: usize) -> (r: Self)
        ensures
            r == (OptSpec { min_index: Some(index), ..self }),
    {
        OptSpec { min_index: Some(index), ..self }
    }

    /// Sets the highest slot index this option may take.
    pub fn max_index(self, index: usize) -> (r: Self)
        ensures
            r == (OptSpec { max_index: Some(index), ..self }),
    {
        OptSpec { max_index: Some(index), ..self }
    }

    /// How token `t` answers this specification.
    pub open spec fn hit(self, t: Seq<char>) -> OptHit {
        if !(t.len() >= 1 && t[0] == '-') {
            OptHit::Miss
        } else if t.len() >= 2 && t[1] == '-' {
            let rest = t.subrange(2, t.len() as int);
            if has_prefix(rest, self.name@) {
                let after = rest.subrange(self.name@.len() as int, rest.len() as int);
                if after.len() == 0 {
                    OptHit::LongPending
                } else if after[0] == '=' {
                    OptHit::LongEq(after.subrange(1, after.len() as int))
                } else {
                    OptHit::Miss
                }
            } else {
                OptHit::Miss
            }
        } else {
            match self.short {
                Some(c) => if t.len() >= 2 && t[1] == c {
                    if t.len() == 2 {
                        OptHit::ShortPending
                    } else if t[2] == '=' {
                        OptHit::ShortAttached(t.subrange(3, t.len() as int))
                    } else {
                        OptHit::ShortAttached(t.subrange(2, t.len() as int))
                    }
                } else {
                    OptHit::Miss
                },
                None => OptHit::Miss,
            }
        }
    }

    /// Whether slot `i` holds a token that answers this specification.
    pub open spec fn hits_at(self, slots: Seq<Option<Seq<char>>>, i: int) -> bool {
        slots[i] matches Some(t) && !(self.hit(t) is Miss)
    }

    /// Whether slot `i` is the first slot within the range that answers.
    pub open spec fn first_hit(self, slots: Seq<Option<Seq<char>>>, i: int) -> bool {
        &&& 0 <= i < slots.len()
        &&& in_bounds(self.min_index, self.max_index, i)
        &&& self.hits_at(slots, i)
        &&& forall|j: int|
            0 <= j < i && in_bounds(self.min_index, self.max_index, j) ==> !self.hits_at(slots, j)
    }

    /// Whether no slot within the range answers.
    pub open spec fn no_hit(self, slots: Seq<Option<Seq<char>>>) -> bool {
        forall|j: int|
            0 <= j < slots.len() && in_bounds(self.min_index, self.max_index, j) ==> !self.hits_at(
                slots,
                j,
            )
    }

    /// Whether a name found at slot `i` has its value in slot `i + 1`: in range and live.
    pub open spec fn value_follows(self, slots: Seq<Option<Seq<char>>>, i: int) -> bool {
        &&& i + 1 < slots.len()
        &&& in_bounds(self.min_index, self.max_index, i + 1)
        &&& slots[i + 1] is Some
    }

    /// The outcome when the name found at slot `i` answers with `h`: the value
    /// (none when it is missing) and the slots after consumption.
    pub open spec fn found(self, slots: Seq<Option<Seq<char>>>, i: int, h: OptHit) -> (
        Option<Seq<char>>,
        Seq<Option<Seq<char>>>,
    ) {
        match h {
            OptHit::LongEq(v) => (Some(v), slots.update(i, None)),
            OptHit::ShortAttached(v) => (Some(v), slots.update(i, None)),
            _ => if self.value_follows(slots, i) {
                (slots[i + 1], slots.update(i, None).update(i + 1, None))
            } else {
                (None, slots.update(i, None))
            },
        }
    }

    /// What taking `self` from a store in state `before` yields: the result `r`
    /// and the slots `after`.
    pub open spec fn taken(self, before: RawArgsView, r: Opt, after: Seq<Option<Seq<char>>>) -> bool {
        let md = before.metadata;
        let slots = before.slots;
        let scanned = !md.help_mode;
        let fallback = scanned && self.no_hit(slots) && !env_set(before.env, self.env);
        match r {
            Opt::Long { spec, metadata, index, value } => {
                let h = self.hit(slots[index as int]->Some_0);
                &&& spec == self
                &&& metadata == md
                &&& scanned
                &&& self.first_hit(slots, index as int)
                &&& (h is LongEq || h is LongPending)
                &&& self.found(slots, index as int, h) == (Some(value@), after)
            },
            Opt::Short { spec, metadata, index, value } => {
                let h = self.hit(slots[index as int]->Some_0);
                &&& spec == self
                &&& metadata == md
                &&& scanned
                &&& self.first_hit(slots, index as int)
                &&& (h is ShortAttached || h is ShortPending)
                &&& self.found(slots, index as int, h) == (Some(value@), after)
            },
            Opt::MissingValue { spec, long } => {
                &&& spec == self
                &&& scanned
                &&& exists|i: int|
                    {
                        let h = self.hit(slots[i]->Some_0);
                        &&& #[trigger] self.first_hit(slots, i)
                        &&& long == (h is LongPending)
                        &&& self.found(slots, i, h) == (None::<Seq<char>>, after)
                    }
            },
            Opt::Env { spec, metadata, value } => {
                &&& spec == self
                &&& metadata == md
                &&& scanned
                &&& self.no_hit(slots)
                &&& env_set(before.env, self.env)
                &&& self.env matches Some(n) && env_lookup(before.env, n@) == Some(value@)
                &&& after == slots
            },
            Opt::Default { spec, metadata } => {
                &&& spec == self
                &&& metadata == md
                &&& self.default is Some
                &&& (md.help_mode || fallback)
                &&& after == slots
            },
            Opt::Example { spec, metadata } => {
                &&& spec == self
                &&& metadata == md
                &&& md.help_mode
                &&& self.default is None
                &&& self.example is Some
                &&& after == slots
            },
            Opt::Absent { spec } => {
                &&& spec == self
                &&& self.default is None
                &&& (md.help_mode ==> self.example is None)
                &&& (!md.help_mode ==> fallback)
                &&& after == slots
            },
        }
    }

    /// Tells how token `t` answers this specification.
    fn hit_of(&self, t: &str) -> (r: Hit)
        ensures
            r.model() == self.hit(t@),
    {
        let n = t.unicode_len();
        if n == 0 || t.get_char(0) != '-' {
            return Hit::Miss;
        }
        if n >= 2 && t.get_char(1) == '-' {
            let rest = suffix(t, 2);
            if !starts_with(rest, self.name) {
                return Hit::Miss;
            }
            let m = self.name.unicode_len();
            let after = suffix(rest, m);
            if after.unicode_len() == 0 {
                return Hit::LongPending;
            }
            if after.get_char(0) == '=' {
                return Hit::LongEq(String::from_str(suffix(after, 1)));
            }
            return Hit::Miss;
        }
        match self.short {
            Some(c) => {
                if n >= 2 && t.get_char(1) == c {
                    if n == 2 {
                        Hit::ShortPending
                    } else if t.get_char(2) == '=' {
                        Hit::ShortAttached(String::from_str(suffix(t, 3)))
                    } else {
                        Hit::ShortAttached(String::from_str(suffix(t, 2)))
                    }
                } else {
                    Hit::Miss
                }
            },
            None => Hit::Miss,
        }
    }

    /// The first slot within the range that answers, with how it answers.
    fn find(&self, args: &RawArgs) -> (r: Option<(usize, Hit)>)
        ensures
            match r {
                Some((i, h)) => {
                    &&& self.first_hit(args@.slots, i as int)
                    &&& h.model() == self.hit(args@.slots[i as int]->Some_0)
                },
                None => self.no_hit(args@.slots),
            },
    {
        let n = args.len();
        let mut i: usize = match self.min_index {
            Some(m) => m,
            None => 0,
        };
        while i < n
            invariant
                n == args@.slots.len(),
                self.min_index matches Some(m) ==> m <= i,
                forall|j: int|
                    0 <= j < i && j < n && in_bounds(self.min_index, self.max_index, j)
                        ==> !self.hits_at(args@.slots, j),
            decreases n - i,
        {
            if let Some(m) = self.max_index {
                if i > m {
                    return None;
                }
            }
            if let Some(t) = args.slot(i) {
                let h = self.hit_of(t.as_str());
                if !matches!(h, Hit::Miss) {
                    return Some((i, h));
                }
            }
            i = i + 1;
        }
        None
    }

    /// Takes the first option within the range: `--name=value`, `-x=value` and
    /// `-xvalue` consume one token; `--name` and `-x` consume that token and the next,
    /// whose text is the value, and when no live token follows in range the
    /// value is missing. In help mode no token is looked at. Falls back to the
    /// environment variable, then to the default value, then (in help mode
    /// only) to the example value. The result is appended to the log.
    pub fn take(self, args: &mut RawArgs) -> (r: Opt)
        ensures
            self.taken(old(args)@, r, final(args)@.slots),
            final(args)@.metadata == old(args)@.metadata,
            final(args)@.env == old(args)@.env,
            final(args)@.log == old(args)@.log.push(Taken::Opt(r)),
    {
        let metadata = args.metadata();
        let r = if metadata.help_mode {
            if self.default.is_some() {
                Opt::Default { spec: self, metadata }
            } else if self.example.is_some() {
                Opt::Example { spec: self, metadata }
            } else {
                Opt::Absent { spec: self }
            }
        } else {
            match self.find(args) {
                Some((index, h)) => {
                    let ghost before = args@.slots;
                    args.consume(index);
                    match h {
                        Hit::LongEq(value) => Opt::Long { spec: self, metadata, index, value },
                        Hit::ShortAttached(value) => Opt::Short { spec: self, metadata, index, value },
                        Hit::Miss => Opt::Absent { spec: self },
                        _ => {
                            let long = matches!(h, Hit::LongPending);
                            let n = args.len();
                            let in_range = index < n - 1 && match self.max_index {
                                Some(m) => index < m,
                                None => true,
                            };
                            if in_range && args.slot(index + 1).is_some() {
                                let value = args.consume(index + 1).unwrap();
                                if long {
                                    Opt::Long { spec: self, metadata, index, value }
                                } else {
                                    Opt::Short { spec: self, metadata, index, value }
                                }
                            } else {
                                assert(!self.value_follows(before, index as int));
                                Opt::MissingValue { spec: self, long }
                            }
                        },
                    }
                },
                None => match args.env_value(self.env) {
                    Some(value) => Opt::Env { spec: self, metadata, value },
                    None => {
                        if self.default.is_some() {
                            Opt::Default { spec: self, metadata }
                        } else {
                            Opt::Absent { spec: self }
                        }
                    },
                },
            }
        };
        args.record(Taken::Opt(r.clone()));
        r
    }
}

/// An option, as taken.
#[derive(Debug, PartialEq, Eq, Hash)]
pub enum Opt {
    /// Given by its long name at `index`.
    Long { spec: OptSpec, metadata: Metadata, index: usize, value: String },
    /// Given by its short name at `index`.
    Short { spec: OptSpec, metadata: Metadata, index: usize, value: String },
    /// Taken from the environment variable.
    Env { spec: OptSpec, metadata: Metadata, value: String },
    /// The specification's default value.
    Default { spec: OptSpec, metadata: Metadata },
    /// The specification's example value (help mode only).
    Example { spec: OptSpec, metadata: Metadata },
    /// The name was given but no value followed it.
    MissingValue { spec: OptSpec, long: bool },
    /// Not given.
    Absent { spec: OptSpec },
}

impl Clone for Opt {
    fn clone(&self) -> (r: Self)
        ensures
            r == *self,
    {
        match self {
            Opt::Long { spec, metadata, index, value } => Opt::Long {
                spec: *spec,
                metadata: *metadata,
                index: *index,
                value: value.clone(),
            },
            Opt::Short { spec, metadata, index, value } => Opt::Short {
                spec: *spec,
                metadata: *metadata,
                index: *index,
                value: value.clone(),
            },
            Opt::Env { spec, metadata, value } => Opt::Env {
                spec: *spec,
                metadata: *metadata,
                value: value.clone(),
            },
            Opt::Default { spec, metadata } => Opt::Default { spec: *spec, metadata: *metadata },
            Opt::Example { spec, metadata } => Opt::Example { spec: *spec, metadata: *metadata },
            Opt::MissingValue { spec, long } => Opt::MissingValue { spec: *spec, long: *long },
            Opt::Absent { spec } => Opt::Absent { spec: *spec },
        }
    }
}

impl Opt {
    /// The specification this option was taken by.
    pub open spec fn spec_of(&self) -> OptSpec {
        match self {
            Opt::Long { spec, .. } => *spec,
            Opt::Short { spec, .. } => *spec,
            Opt::Env { spec, .. } => *spec,
            Opt::Default { spec, .. } => *spec,
            Opt::Example { spec, .. } => *spec,
            Opt::MissingValue { spec, .. } => *spec,
            Opt::Absent { spec } => *spec,
        }
    }

    /// Whether a value was obtained.
    pub open spec fn has_value(&self) -> bool {
        !(self is Absent || self is MissingValue)
    }

    /// The value; empty when there is none.
    pub open spec fn value_of(&self) -> Seq<char> {
        match self {
            Opt::Long { value, .. } => value@,
            Opt::Short { value, .. } => value@,
            Opt::Env { value, .. } => value@,
            Opt::Default { spec, .. } => match spec.default {
                Some(d) => d@,
                None => Seq::empty(),
            },
            Opt::Example { spec, .. } => match spec.example {
                Some(e) => e@,
                None => Seq::empty(),
            },
            _ => Seq::empty(),
        }
    }

    /// Returns the specification of this option.
    pub fn spec(&self) -> (r: OptSpec)
        ensures
            r == self.spec_of(),
    {
        match self {
            Opt::Long { spec, .. } => *spec,
            Opt::Short { spec, .. } => *spec,
            Opt::Env { spec, .. } => *spec,
            Opt::Default { spec, .. } => *spec,
            Opt::Example { spec, .. } => *spec,
            Opt::MissingValue { spec, .. } => *spec,
            Opt::Absent { spec } => *spec,
        }
    }

    /// Returns `true` if this option is present (its value may still be missing).
    pub fn is_present(&self) -> (r: bool)
        ensures
            r == !(self is Absent),
    {
        !matches!(self, Opt::Absent { .. })
    }

    /// Returns `true` if this option is present and has a value.
    pub fn is_value_present(&self) -> (r: bool)
        ensures
            r == self.has_value(),
    {
        !matches!(self, Opt::Absent { .. } | Opt::MissingValue { .. })
    }

    /// Returns `Some(self)` if this option is present.
    pub fn present(self) -> (r: Option<Self>)
        ensures
            r == (if self is Absent { None } else { Some(self) }),
    {
        if self.is_present() {
            Some(self)
        } else {
            None
        }
    }

    /// Applies a conversion or validation to an option that has a value.
    ///
    /// Fails with `MissingOpt` when there is no value, and with `InvalidOpt` when
    /// `f` fails.
    pub fn and_then<F, T, E>(self, f: F) -> (r: Result<T, Error>) where
        F: FnOnce(Self) -> Result<T, E>,
        E: std::fmt::Display,

        requires
            self.has_value() ==> f.requires((self,)),
        ensures
            !self.has_value() ==> (r matches Err(Error::MissingOpt { opt }) && *opt == self),
            self.has_value() ==> match r {
                Ok(t) => f.ensures((self,), Ok(t)),
                Err(e) => {
                    &&& (e matches Error::InvalidOpt { opt, reason } && *opt == self && exists|x: E|
                        f.ensures((self,), Err(x)) && to_string_from_display_ensures::<E>(&x, reason))
                },
            },
    {
        if !self.is_value_present() {
            return Err(Error::MissingOpt { opt: Box::new(self) });
        }
        let copy = self.clone();
        match f(copy) {
            Ok(t) => Ok(t),
            Err(e) => {
                let reason = e.to_string();
                assert(f.ensures((self,), Err(e)) && to_string_from_display_ensures::<E>(&e, reason));
                assert(exists|x: E| f.ensures((self,), Err(x)) && to_string_from_display_ensures::<E>(&x, reason));
                let r = Err(Error::InvalidOpt { opt: Box::new(self), reason });
                assert(r matches Err(Error::InvalidOpt { reason: given, .. }) && given == reason);
                r
            },
        }
    }

    /// Like `then`, but an option that is not present gives `Ok(None)`.
    pub fn present_and_then<F, T, E>(self, f: F) -> (r: Result<Option<T>, Error>) where
        F: FnOnce(Self) -> Result<T, E>,
        E: std::fmt::Display,

        requires
            self.has_value() ==> f.requires((self,)),
        ensures
            self is Absent ==> r == Ok::<Option<T>, Error>(None),
            self is MissingValue ==> (r matches Err(Error::MissingOpt { opt }) && *opt == self),
            self.has_value() ==> match r {
                Ok(Some(t)) => f.ensures((self,), Ok(t)),
                Ok(None) => false,
                Err(e) => {
                    &&& (e matches Error::InvalidOpt { opt, reason } && *opt == self && exists|x: E|
                        f.ensures((self,), Err(x)) && to_string_from_display_ensures::<E>(&x, reason))
                },
            },
    {
        if !self.is_present() {
            return Ok(None);
        }
        match self.and_then(f) {
            Ok(t) => Ok(Some(t)),
            Err(e) => Err(e),
        }
    }

    /// Returns the value of this option, or an empty string if there is none.
    pub fn value(&self) -> (r: &str)
        ensures
            r@ == self.value_of(),
    {
        proof {
            reveal_strlit("");
        }
        match self {
            Opt::Long { value, .. } => value.as_str(),
            Opt::Short { value, .. } => value.as_str(),
            Opt::Env { value, .. } => value.as_str(),
            Opt::Default { spec, .. } => match spec.default {
                Some(d) => d,
                None => "",
            },
            Opt::Example { spec, .. } => match spec.example {
                Some(e) => e,
                None => "",
            },
            _ => "",
        }
    }

    /// The index of the token this was taken from, if any.
    pub open spec fn index_of(&self) -> Option<usize> {
        (match self {
                Opt::Long { index, .. } => Some(*index),
                Opt::Short { index, .. } => Some(*index),
                _ => None,
            })
    }

    /// Returns the index of the token that held the option's name.
    pub fn index(&self) -> (r: Option<usize>)
        ensures
            r == self.index_of(),
    {
        match self {
            Opt::Long { index, .. } => Some(*index),
            Opt::Short { index, .. } => Some(*index),
            _ => None,
        }
    }

    /// The metadata in force when this option was taken, if it has a value.
    pub open spec fn metadata_of(&self) -> Option<Metadata> {
        (match self {
                Opt::Long { metadata, .. } => Some(*metadata),
                Opt::Short { metadata, .. } => Some(*metadata),
                Opt::Env { metadata, .. } => Some(*metadata),
                Opt::Default { metadata, .. } => Some(*metadata),
                Opt::Example { metadata, .. } => Some(*metadata),
                _ => None::<Metadata>,
            })
    }

    /// The metadata in force when this option was taken, unless it has no value.
    pub(crate) fn metadata(&self) -> (r: Option<Metadata>)
        ensures
            r == self.metadata_of(),
    {
        match self {
            Opt::Long { metadata, .. } => Some(*metadata),
            Opt::Short { metadata, .. } => Some(*metadata),
            Opt::Env { metadata, .. } => Some(*metadata),
            Opt::Default { metadata, .. } => Some(*metadata),
            Opt::Example { metadata, .. } => Some(*metadata),
            _ => None,
        }
    }
}

} // verus!
