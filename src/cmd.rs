//! Subcommands: a specification takes the next live token when its text is the
//! subcommand's name.
use vstd::prelude::*;

use crate::args::{is_first_live, none_live, RawArgs, RawArgsView, Taken};
use crate::text::str_eq;

verus! {

/// Specification of a subcommand.
#[derive(Debug, Clone, Copy, PartialEq, Eq, Hash)]
pub struct CmdSpec {
    /// Subcommand name.
    pub name: &'static str,
    /// Documentation.
    pub doc: &'static str,
    /// When set, the name may stand at any live token, not only the next one.
    pub anywhere: bool,
}

impl CmdSpec {
    /// Makes a specification with the given name, matched at the next live token only.
    pub fn new(name: &'static str) -> (r: Self)
        ensures
            r.name == name,
            r.doc@ == ""@,
            !r.anywhere,
    {
        CmdSpec { name, doc: "", anywhere: false }
    }

    /// Sets the documentation.
    pub fn doc(self, doc: &'static str) -> (r: Self)
        ensures
            r == (CmdSpec { doc, ..self }),
    {
        CmdSpec { doc, ..self }
    }

    /// Lets the name stand at any live token.
    pub fn anywhere(self) -> (r: Self)
        ensures
            r == (CmdSpec { anywhere: true, ..self }),
    {
        CmdSpec { anywhere: true, ..self }
    }

    /// Whether slot `i` is where this subcommand is found: the first live slot
    /// holding its name when `anywhere` is set, else the first live slot if it
    /// holds the name.
    pub open spec fn found_at(self, slots: Seq<Option<Seq<char>>>, i: int) -> bool {
        &&& 0 <= i < slots.len()
        &&& slots[i] == Some(self.name@)
        &&& forall|j: int|
            0 <= j < i ==> if self.anywhere {
                slots[j] != Some(self.name@)
            } else {
                slots[j] is None
            }
    }

    /// What taking `self` from a store in state `before` yields: the result `r`
    /// and the slots `after`.
    pub open spec fn taken(self, before: RawArgsView, r: Cmd, after: Seq<Option<Seq<char>>>) -> bool {
        match r {
            Cmd::Found { spec, index } => {
                &&& spec == self
                &&& self.found_at(before.slots, index as int)
                &&& after == before.slots.update(index as int, None)
            },
            Cmd::Absent { spec } => {
                &&& spec == self
                &&& forall|i: int| !self.found_at(before.slots, i)
                &&& after == before.slots
            },
        }
    }

    /// Where this subcommand is found, if anywhere.
    fn position(self, args: &RawArgs) -> (r: Option<usize>)
        ensures
            match r {
                Some(i) => self.found_at(args@.slots, i as int),
                None => forall|i: int| !self.found_at(args@.slots, i),
            },
    {
        let n = args.len();
        let mut i: usize = 0;
        while i < n
            invariant
                n == args@.slots.len(),
                forall|j: int|
                    0 <= j < i ==> if self.anywhere {
                        args@.slots[j] != Some(self.name@)
                    } else {
                        args@.slots[j] is None
                    },
            decreases n - i,
        {
            if let Some(t) = args.slot(i) {
                if str_eq(t.as_str(), self.name) {
                    return Some(i);
                }
                if !self.anywhere {
                    assert forall|k: int| !self.found_at(args@.slots, k) by {
                        if self.found_at(args@.slots, k) && k > i {
                            assert(args@.slots[i as int] is None);
                        }
                    }
                    return None;
                }
            }
            i = i + 1;
        }
        None
    }

    /// Takes the subcommand if its name is the next live token (or, with
    /// `anywhere`, any live token). The result is appended to the log.
    pub fn take(self, args: &mut RawArgs) -> (r: Cmd)
        ensures
            self.taken(old(args)@, r, final(args)@.slots),
            final(args)@.metadata == old(args)@.metadata,
            final(args)@.env == old(args)@.env,
            final(args)@.log == old(args)@.log.push(Taken::Cmd(r)),
    {
        let found = self.position(args);
        let r = match found {
            Some(index) => {
                args.consume(index);
                Cmd::Found { spec: self, index }
            },
            None => Cmd::Absent { spec: self },
        };
        args.record(Taken::Cmd(r));
        r
    }
}

impl Default for CmdSpec {
    fn default() -> (r: Self)
        ensures
            r.name@ == ""@,
            r.doc@ == ""@,
            !r.anywhere,
    {
        CmdSpec::new("")
    }
}

/// A subcommand, as taken.
#[derive(Debug, Clone, Copy, PartialEq, Eq, Hash)]
pub enum Cmd {
    /// Found at `index`.
    Found { spec: CmdSpec, index: usize },
    /// Not found.
    Absent { spec: CmdSpec },
}

impl Cmd {
    /// The specification this subcommand was taken by.
    pub open spec fn spec_of(self) -> CmdSpec {
        (match self {
                Cmd::Found { spec, .. } => spec,
                Cmd::Absent { spec } => spec,
            })
    }

    /// Returns the specification of this subcommand.
    pub fn spec(self) -> (r: CmdSpec)
        ensures
            r == self.spec_of(),
    {
        match self {
            Cmd::Found { spec, .. } => spec,
            Cmd::Absent { spec } => spec,
        }
    }

    /// Returns `true` if this subcommand is present.
    pub fn is_present(self) -> (r: bool)
        ensures
            r == (self is Found),
    {
        matches!(self, Cmd::Found { .. })
    }

    /// Returns `Some(self)` if this subcommand is present.
    pub fn present(self) -> (r: Option<Self>)
        ensures
            r == (if self is Found { Some(self) } else { None }),
    {
        if self.is_present() {
            Some(self)
        } else {
            None
        }
    }

    /// The index of the token this was taken from, if any.
    pub open spec fn index_of(self) -> Option<usize> {
        (match self {
                Cmd::Found { index, .. } => Some(index),
                Cmd::Absent { .. } => None,
            })
    }

    /// Returns the index of the token this subcommand was taken from.
    pub fn index(self) -> (r: Option<usize>)
        ensures
            r == self.index_of(),
    {
        match self {
            Cmd::Found { index, .. } => Some(index),
            Cmd::Absent { .. } => None,
        }
    }
}

} // verus!
