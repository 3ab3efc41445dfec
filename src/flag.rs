//! Flags: named arguments without a value, given as `--name` or as one character
//! of a short-flag cluster such as `-abc`.
use vstd::prelude::*;

use crate::args::{env_set, in_bounds, FlagChars, Metadata, RawArgs, RawArgsView, Taken};
use crate::text::{str_eq, suffix};

verus! {

/// Specification of a flag.
#[derive(Debug, Clone, Copy, PartialEq, Eq, Hash)]
pub struct FlagSpec {
    /// Long name, matched by `--name`.
    pub name: &'static str,
    /// Short name, matched inside a cluster `-xyz`.
    pub short: Option<char>,
    /// Documentation.
    pub doc: &'static str,
    /// Environment variable that, when set to a non-empty value, counts as the flag.
    pub env: Option<&'static str>,
    /// Lowest slot index this flag may take (inclusive).
    pub min_index: Option<usize>,
    /// Highest slot index this flag may take (inclusive).
    pub max_index: Option<usize>,
}

/// How a token answers a flag specification.
enum FlagHit {
    Miss,
    Long,
    /// The short name stands at this character position of the token.
    Short(usize),
}

/// The slot contents after the short name at position `k` left the cluster `t`:
/// a cluster reduced to its dash is consumed.
pub open spec fn cluster_without(t: Seq<char>, k: int) -> Option<Seq<char>> {
    if t.remove(k).len() == 1 {
        None
    } else {
        Some(t.remove(k))
    }
}

impl FlagSpec {
    /// Makes a specification with the given long name and nothing else set.
    pub fn new(name: &'static str) -> (r: Self)
        ensures
            r.name == name,
            r.short is None,
            r.doc@ == ""@,
            r.env is None,
            r.min_index is None,
            r.max_index is None,
    {
        FlagSpec { name, short: None, doc: "", env: None, min_index: None, max_index: None }
    }

    /// Sets the short name.
    pub fn short(self, name: char) -> (r: Self)
        ensures
            r == (FlagSpec { short: Some(name), ..self }),
    {
        FlagSpec { short: Some(name), ..self }
    }

    /// Sets the documentation.
    pub fn doc(self, doc: &'static str) -> (r: Self)
        ensures
            r == (FlagSpec { doc, ..self }),
    {
        FlagSpec { doc, ..self }
    }

    /// Sets the environment variable.
    pub fn env(self, variable_name: &'static str) -> (r: Self)
        ensures
            r == (FlagSpec { env: Some(variable_name), ..self }),
    {
        FlagSpec { env: Some(variable_name), ..self }
    }

    /// Sets the lowest slot index this flag may take.
    pub fn min_index(self, index: usize) -> (r: Self)
        ensures
            r == (FlagSpec { min_index: Some(index), ..self }),
    {
        FlagSpec { min_index: Some(index), ..self }
    }

    /// Sets the highest slot index this flag may take.
    pub fn max_index(self, index: usize) -> (r: Self)
        ensures
            r == (FlagSpec { max_index: Some(index), ..self }),
    {
        FlagSpec { max_index: Some(index), ..self }
    }

    /// Whether token `t` is exactly `--name`.
    pub open spec fn long_hit(self, t: Seq<char>) -> bool {
        t.len() >= 2 && t[0] == '-' && t[1] == '-' && t.subrange(2, t.len() as int) == self.name@
    }

    /// Whether token `t` is a short-flag cluster whose first occurrence of the
    /// short name stands at position `k`.
    pub open spec fn short_hit(self, chars: FlagChars, t: Seq<char>, k: int) -> bool {
        &&& t.len() >= 1
        &&& t[0] == '-'
        &&& !(t.len() >= 2 && t[1] == '-')
        &&& chars.accepts(t.subrange(1, t.len() as int))
        &&& self.short matches Some(c)
        &&& 1 <= k < t.len()
        &&& t[k] == c
        &&& forall|m: int| 1 <= m < k ==> t[m] != c
    }

    /// Whether token `t` matches, in either form.
    pub open spec fn hits(self, chars: FlagChars, t: Seq<char>) -> bool {
        self.long_hit(t) || exists|k: int| self.short_hit(chars, t, k)
    }

    /// Whether slot `i` is the first slot within the range that matches.
    pub open spec fn first_hit(self, chars: FlagChars, slots: Seq<Option<Seq<char>>>, i: int) -> bool {
        &&& 0 <= i < slots.len()
        &&& in_bounds(self.min_index, self.max_index, i)
        &&& slots[i] matches Some(t) && self.hits(chars, t)
        &&& forall|j: int|
            0 <= j < i && in_bounds(self.min_index, self.max_index, j) ==> !(slots[j] matches Some(
                t,
            ) && self.hits(chars, t))
    }

    /// Whether no slot within the range matches.
    pub open spec fn no_hit(self, chars: FlagChars, slots: Seq<Option<Seq<char>>>) -> bool {
        forall|j: int|
            0 <= j < slots.len() && in_bounds(self.min_index, self.max_index, j) ==> !(slots[j] matches Some(
                t,
            ) && self.hits(chars, t))
    }

    /// What taking `self` from a store in state `before` yields: the result `r`
    /// and the slots `after`.
    pub open spec fn taken(self, before: RawArgsView, r: Flag, after: Seq<Option<Seq<char>>>) -> bool {
        let chars = before.metadata.valid_flag_chars;
        let slots = before.slots;
        match r {
            Flag::Long { spec, index } => {
                &&& spec == self
                &&& self.first_hit(chars, slots, index as int)
                &&& slots[index as int] matches Some(t) && self.long_hit(t)
                &&& after == slots.update(index as int, None)
            },
            Flag::Short { spec, index } => {
                &&& spec == self
                &&& self.first_hit(chars, slots, index as int)
                &&& slots[index as int] matches Some(t) && !self.long_hit(t) && exists|k: int|
                    self.short_hit(chars, t, k) && after == slots.update(
                        index as int,
                        cluster_without(t, k),
                    )
            },
            Flag::Env { spec } => {
                &&& spec == self
                &&& self.no_hit(chars, slots)
                &&& env_set(before.env, self.env)
                &&& after == slots
            },
            Flag::Absent { spec } => {
                &&& spec == self
                &&& self.no_hit(chars, slots)
                &&& !env_set(before.env, self.env)
                &&& after == slots
            },
        }
    }

    /// Tells how token `t` answers this specification.
    fn hit(&self, chars: FlagChars, t: &str) -> (r: FlagHit)
        ensures
            match r {
                FlagHit::Miss => !self.hits(chars, t@),
                FlagHit::Long => self.long_hit(t@),
                FlagHit::Short(k) => !self.long_hit(t@) && self.short_hit(chars, t@, k as int),
            },
    {
        let n = t.unicode_len();
        if n == 0 || t.get_char(0) != '-' {
            return FlagHit::Miss;
        }
        if n >= 2 && t.get_char(1) == '-' {
            if str_eq(suffix(t, 2), self.name) {
                return FlagHit::Long;
            }
            return FlagHit::Miss;
        }
        if !chars.check(suffix(t, 1)) {
            return FlagHit::Miss;
        }
        let c = match self.short {
            Some(c) => c,
            None => return FlagHit::Miss,
        };
        let mut k: usize = 1;
        while k < n
            invariant
                n == t@.len(),
                1 <= k <= n,
                t@[0] == '-',
                !(n >= 2 && t@[1] == '-'),
                chars.accepts(t@.subrange(1, n as int)),
                self.short == Some(c),
                forall|m: int| 1 <= m < k ==> t@[m] != c,
            decreases n - k,
        {
            if t.get_char(k) == c {
                return FlagHit::Short(k);
            }
            k = k + 1;
        }
        assert forall|j: int| !self.short_hit(chars, t@, j) by {
            if self.short_hit(chars, t@, j) {
                assert(t@[j] != c);
            }
        }
        FlagHit::Miss
    }

    /// The first slot within the range that matches, with how it matches.
    fn find(&self, args: &RawArgs) -> (r: Option<(usize, FlagHit)>)
        ensures
            match r {
                Some((i, h)) => {
                    &&& self.first_hit(args@.metadata.valid_flag_chars, args@.slots, i as int)
                    &&& args@.slots[i as int] matches Some(t) && match h {
                        FlagHit::Miss => false,
                        FlagHit::Long => self.long_hit(t),
                        FlagHit::Short(k) => !self.long_hit(t) && self.short_hit(
                            args@.metadata.valid_flag_chars,
                            t,
                            k as int,
                        ),
                    }
                },
                None => self.no_hit(args@.metadata.valid_flag_chars, args@.slots),
            },
    {
        let chars = args.metadata().valid_flag_chars;
        let n = args.len();
        let mut i: usize = match self.min_index {
            Some(m) => m,
            None => 0,
        };
        while i < n
            invariant
                n == args@.slots.len(),
                chars == args@.metadata.valid_flag_chars,
                self.min_index matches Some(m) ==> m <= i,
                forall|j: int|
                    0 <= j < i && j < n && in_bounds(self.min_index, self.max_index, j) ==> !(
                    args@.slots[j] matches Some(t) && self.hits(chars, t)),
            decreases n - i,
        {
            if let Some(m) = self.max_index {
                if i > m {
                    return None;
                }
            }
            if let Some(t) = args.slot(i) {
                let h = self.hit(chars, t.as_str());
                if !matches!(h, FlagHit::Miss) {
                    return Some((i, h));
                }
            }
            i = i + 1;
        }
        None
    }

    /// Takes the first token within the range that is `--name`, or a cluster of
    /// short flags holding the short name (which then leaves the cluster; a
    /// cluster left with its dash alone is consumed). Falls back to the
    /// environment variable. The result is appended to the log.
    pub fn take(self, args: &mut RawArgs) -> (r: Flag)
        ensures
            self.taken(old(args)@, r, final(args)@.slots),
            final(args)@.metadata == old(args)@.metadata,
            final(args)@.env == old(args)@.env,
            final(args)@.log == old(args)@.log.push(Taken::Flag(r)),
    {
        let found = self.find(args);
        let r = match found {
            Some((index, FlagHit::Long)) => {
                args.consume(index);
                Flag::Long { spec: self, index }
            }
            Some((index, FlagHit::Short(k))) => {
                let ghost before = args@.slots;
                let t = args.consume(index).unwrap();
                let len = t.as_str().unicode_len();
                let mut rest = String::from_str(t.as_str().substring_char(0, k));
                rest.append(t.as_str().substring_char(k + 1, len));
                assert(rest@ =~= t@.remove(k as int));
                if rest.as_str().unicode_len() != 1 {
                    args.replace(index, rest);
                    assert(args@.slots =~= before.update(index as int, cluster_without(t@, k as int)));
                } else {
                    assert(args@.slots =~= before.update(index as int, cluster_without(t@, k as int)));
                }
                Flag::Short { spec: self, index }
            }
            _ => {
                if args.env_value(self.env).is_some() {
                    Flag::Env { spec: self }
                } else {
                    Flag::Absent { spec: self }
                }
            }
        };
        args.record(Taken::Flag(r));
        r
    }

    /// Like `take`, and when the flag is present also turns on help mode,
    /// records this flag's name as the help flag's, and asks for the full help
    /// when the long form was given.
    pub fn take_help(self, args: &mut RawArgs) -> (r: Flag)
        ensures
            self.taken(old(args)@, r, final(args)@.slots),
            final(args)@.env == old(args)@.env,
            final(args)@.log == old(args)@.log.push(Taken::Flag(r)),
            final(args)@.metadata == (if r is Absent {
                old(args)@.metadata
            } else {
                Metadata {
                    help_mode: true,
                    help_flag_name: Some(self.name),
                    full_help: r is Long || old(args)@.metadata.full_help,
                    ..old(args)@.metadata
                }
            }),
    {
        let flag = self.take(args);
        if flag.is_present() {
            let md = args.metadata_mut();
            md.help_mode = true;
            md.help_flag_name = Some(self.name);
            if matches!(flag, Flag::Long { .. }) {
                md.full_help = true;
            }
        }
        flag
    }
}

impl Default for FlagSpec {
    fn default() -> (r: Self)
        ensures
            r.name@ == ""@,
            r.short is None,
            r.doc@ == ""@,
            r.env is None,
            r.min_index is None,
            r.max_index is None,
    {
        FlagSpec::new("")
    }
}

/// A flag, as taken.
#[derive(Debug, Clone, Copy, PartialEq, Eq, Hash)]
pub enum Flag {
    /// Given as `--name` at `index`.
    Long { spec: FlagSpec, index: usize },
    /// Given in the short-flag cluster at `index`.
    Short { spec: FlagSpec, index: usize },
    /// Set through the environment variable.
    Env { spec: FlagSpec },
    /// Not given.
    Absent { spec: FlagSpec },
}

impl Flag {
    /// The specification this flag was taken by.
    pub open spec fn spec_of(self) -> FlagSpec {
        (match self {
                Flag::Long { spec, .. } => spec,
                Flag::Short { spec, .. } => spec,
                Flag::Env { spec } => spec,
                Flag::Absent { spec } => spec,
            })
    }

    /// Returns the specification of this flag.
    pub fn spec(self) -> (r: FlagSpec)
        ensures
            r == self.spec_of(),
    {
        match self {
            Flag::Long { spec, .. } => spec,
            Flag::Short { spec, .. } => spec,
            Flag::Env { spec } => spec,
            Flag::Absent { spec } => spec,
        }
    }

    /// Returns `true` if this flag is set.
    pub fn is_present(self) -> (r: bool)
        ensures
            r == !(self is Absent),
    {
        !matches!(self, Flag::Absent { .. })
    }

    /// Returns `Some(self)` if this flag is set.
    pub fn present(self) -> (r: Option<Self>)
        ensures
            r == (if self is Absent { None } else { Some(self) }),
    {
        if self.is_present() {
            Some(self)
        } else {
            None
        }
    }

    /// The index of the token this was taken from, if any.
    pub open spec fn index_of(self) -> Option<usize> {
        (match self {
                Flag::Long { index, .. } => Some(index),
                Flag::Short { index, .. } => Some(index),
                _ => None,
            })
    }

    /// Returns the index of the token this flag was taken from.
    pub fn index(self) -> (r: Option<usize>)
        ensures
            r == self.index_of(),
    {
        match self {
            Flag::Long { index, .. } => Some(index),
            Flag::Short { index, .. } => Some(index),
            _ => None,
        }
    }
}

} // verus!
