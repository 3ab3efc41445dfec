//! Properties that relate successive extractions and the state of the store.
use vstd::prelude::*;

use crate::arg::{Arg, ArgSpec};
use crate::args::{env_set, RawArgsView};
use crate::cmd::{Cmd, CmdSpec};
use crate::flag::{Flag, FlagSpec};
use crate::opt::{Opt, OptSpec};

verus! {

/// Taking the same positional specification twice in a row never yields the
/// same token twice: the second take finds a later token, and once no token is
/// found none is found again.
pub proof fn arg_take_advances(
    spec: ArgSpec,
    s0: RawArgsView,
    r1: Arg,
    s1: RawArgsView,
    r2: Arg,
    s2: Seq<Option<Seq<char>>>,
)
    requires
        spec.taken(s0, r1, s1.slots),
        s1.metadata == s0.metadata,
        spec.taken(s1, r2, s2),
    ensures
        r1.index_of() is Some && r2.index_of() is Some ==> r2.index_of()->Some_0
            > r1.index_of()->Some_0,
        r1.index_of() is None ==> r2.index_of() is None,
{
    if r1.index_of() is Some && r2.index_of() is Some {
        let i1 = r1.index_of()->Some_0 as int;
        let i2 = r2.index_of()->Some_0 as int;
        if i2 <= i1 {
            assert(s1.slots[i2] is Some);
            assert(s0.slots[i2] is Some);
        }
    }
}

/// Taking the same option specification twice in a row never yields the same
/// token twice: the second take finds its name in a later token, and once no
/// token is found none is found again.
pub proof fn opt_take_advances(
    spec: OptSpec,
    s0: RawArgsView,
    r1: Opt,
    s1: RawArgsView,
    r2: Opt,
    s2: Seq<Option<Seq<char>>>,
)
    requires
        spec.taken(s0, r1, s1.slots),
        s1.metadata == s0.metadata,
        s1.env == s0.env,
        spec.taken(s1, r2, s2),
    ensures
        r1.index_of() is Some && r2.index_of() is Some ==> r2.index_of()->Some_0
            > r1.index_of()->Some_0,
        r1.index_of() is None && !(r1 is MissingValue) ==> r2.index_of() is None,
{
    if r1.index_of() is Some && r2.index_of() is Some {
        let i1 = r1.index_of()->Some_0 as int;
        let i2 = r2.index_of()->Some_0 as int;
        if i2 <= i1 {
            assert(s1.slots[i1] is None);
            assert(s1.slots[i2] == s0.slots[i2]);
            assert(spec.hits_at(s0.slots, i2));
        }
    }
}

/// Taking the same flag specification twice in a row never goes back: the
/// second take finds a token at the same index or later, a later one when the
/// first was the long form, and once no token is found none is found again.
/// (A short flag repeated in one cluster, as in `-ff`, is found twice at the
/// same index; so is a cluster that turns into the long form once its short
/// name leaves it, as `-f-bar` becomes `--bar` when `-` is an accepted flag
/// character.)
pub proof fn flag_take_advances(
    spec: FlagSpec,
    s0: RawArgsView,
    r1: Flag,
    s1: RawArgsView,
    r2: Flag,
    s2: Seq<Option<Seq<char>>>,
)
    requires
        spec.taken(s0, r1, s1.slots),
        s1.metadata == s0.metadata,
        s1.env == s0.env,
        spec.taken(s1, r2, s2),
    ensures
        r1.index_of() is Some && r2.index_of() is Some ==> r2.index_of()->Some_0
            >= r1.index_of()->Some_0,
        r1 is Long && r2.index_of() is Some ==> r2.index_of()->Some_0 > r1.index_of()->Some_0,
        r1.index_of() is None ==> r2.index_of() is None,
{
    let chars = s0.metadata.valid_flag_chars;
    if r1.index_of() is Some && r2.index_of() is Some {
        let i1 = r1.index_of()->Some_0 as int;
        let i2 = r2.index_of()->Some_0 as int;
        if i2 < i1 {
            assert(s1.slots[i2] == s0.slots[i2]);
            assert(s0.slots[i2] matches Some(t) && spec.hits(chars, t));
        }
        if r1 is Long && i2 == i1 {
            assert(s1.slots[i1] is None);
        }
    }
}

/// Taking the same subcommand specification twice in a row never yields the
/// same token twice.
pub proof fn cmd_take_advances(
    spec: CmdSpec,
    s0: RawArgsView,
    r1: Cmd,
    s1: RawArgsView,
    r2: Cmd,
    s2: Seq<Option<Seq<char>>>,
)
    requires
        spec.taken(s0, r1, s1.slots),
        spec.taken(s1, r2, s2),
    ensures
        r1.index_of() is Some && r2.index_of() is Some ==> r2.index_of()->Some_0
            > r1.index_of()->Some_0,
        r1.index_of() is None ==> r2.index_of() is None,
{
    if r1.index_of() is Some && r2.index_of() is Some {
        let i1 = r1.index_of()->Some_0 as int;
        let i2 = r2.index_of()->Some_0 as int;
        if i2 < i1 {
            assert(s1.slots[i2] == s0.slots[i2]);
        }
        if i2 == i1 {
            assert(s1.slots[i1] is None);
        }
    }
    if r1.index_of() is None && r2.index_of() is Some {
        assert(s1.slots == s0.slots);
        assert(spec.found_at(s0.slots, r2.index_of()->Some_0 as int));
    }
}

/// Taking a positional argument leaves every slot but the one it took where it
/// was: the store keeps its length and no index shifts.
pub proof fn arg_take_keeps_indices(spec: ArgSpec, s0: RawArgsView, r: Arg, s1: Seq<Option<Seq<char>>>)
    requires
        spec.taken(s0, r, s1),
    ensures
        s1.len() == s0.slots.len(),
        forall|j: int| 0 <= j < s1.len() && Some(j as usize) != r.index_of() ==> s1[j] == s0.slots[j],
{
}

/// Taking an option changes no slot but the one that held its name and, for a
/// value given in the next token, that token: the store keeps its length and no
/// index shifts.
pub proof fn opt_take_keeps_indices(spec: OptSpec, s0: RawArgsView, r: Opt, s1: Seq<Option<Seq<char>>>)
    requires
        spec.taken(s0, r, s1),
    ensures
        s1.len() == s0.slots.len(),
        forall|j: int|
            0 <= j < s1.len() && s1[j] != s0.slots[j] ==> exists|i: int|
                spec.first_hit(s0.slots, i) && (j == i || j == i + 1),
{
    assert forall|j: int| 0 <= j < s1.len() && s1[j] != s0.slots[j] implies exists|i: int|
        spec.first_hit(s0.slots, i) && (j == i || j == i + 1) by {
        match r {
            Opt::Long { index, .. } => assert(spec.first_hit(s0.slots, index as int)),
            Opt::Short { index, .. } => assert(spec.first_hit(s0.slots, index as int)),
            Opt::MissingValue { .. } => {
                let i = choose|i: int|
                    {
                        let h = spec.hit(s0.slots[i]->Some_0);
                        &&& #[trigger] spec.first_hit(s0.slots, i)
                        &&& spec.found(s0.slots, i, h) == (None::<Seq<char>>, s1)
                    };
                assert(spec.first_hit(s0.slots, i));
            },
            _ => {},
        }
    }
    match r {
        Opt::MissingValue { .. } => {
            let i = choose|i: int|
                {
                    let h = spec.hit(s0.slots[i]->Some_0);
                    &&& #[trigger] spec.first_hit(s0.slots, i)
                    &&& spec.found(s0.slots, i, h) == (None::<Seq<char>>, s1)
                };
            assert(s1.len() == s0.slots.len());
        },
        _ => {},
    }
}

/// Taking a flag changes no slot but the one it was found in: the store keeps
/// its length and no index shifts.
pub proof fn flag_take_keeps_indices(spec: FlagSpec, s0: RawArgsView, r: Flag, s1: Seq<Option<Seq<char>>>)
    requires
        spec.taken(s0, r, s1),
    ensures
        s1.len() == s0.slots.len(),
        forall|j: int| 0 <= j < s1.len() && Some(j as usize) != r.index_of() ==> s1[j] == s0.slots[j],
{
    if let Flag::Short { index, .. } = r {
        let t = s0.slots[index as int]->Some_0;
        let k = choose|k: int|
            spec.short_hit(s0.metadata.valid_flag_chars, t, k) && s1 == s0.slots.update(
                index as int,
                crate::flag::cluster_without(t, k),
            );
        assert(s1 == s0.slots.update(index as int, crate::flag::cluster_without(t, k)));
    }
}

/// Taking a subcommand changes no slot but the one it was found in: the store
/// keeps its length and no index shifts.
pub proof fn cmd_take_keeps_indices(spec: CmdSpec, s0: RawArgsView, r: Cmd, s1: Seq<Option<Seq<char>>>)
    requires
        spec.taken(s0, r, s1),
    ensures
        s1.len() == s0.slots.len(),
        forall|j: int| 0 <= j < s1.len() && Some(j as usize) != r.index_of() ==> s1[j] == s0.slots[j],
{
}

/// An option with a default value and no token that answers it (nor its
/// environment variable set) resolves to the default on every take, and the
/// store is left as it was, so any number of further takes do the same.
pub proof fn opt_default_is_stable(
    spec: OptSpec,
    s0: RawArgsView,
    r1: Opt,
    s1: RawArgsView,
    r2: Opt,
    s2: Seq<Option<Seq<char>>>,
)
    requires
        spec.default is Some,
        spec.no_hit(s0.slots),
        !env_set(s0.env, spec.env),
        spec.taken(s0, r1, s1.slots),
        s1.metadata == s0.metadata,
        s1.env == s0.env,
        spec.taken(s1, r2, s2),
    ensures
        r1 is Default,
        r2 is Default,
        r1.value_of() == spec.default->Some_0@,
        r2.value_of() == spec.default->Some_0@,
        s1.slots == s0.slots,
        s2 == s0.slots,
{
    if r1 is MissingValue {
        let i = choose|i: int|
            {
                let h = spec.hit(s0.slots[i]->Some_0);
                &&& #[trigger] spec.first_hit(s0.slots, i)
                &&& true
            };
        assert(spec.first_hit(s0.slots, i));
    }
    assert(s1.slots == s0.slots);
    if r2 is MissingValue {
        let i = choose|i: int|
            {
                let h = spec.hit(s1.slots[i]->Some_0);
                &&& #[trigger] spec.first_hit(s1.slots, i)
                &&& true
            };
        assert(spec.first_hit(s1.slots, i));
    }
}

/// In help mode a positional argument reads no token: the store is left as it
/// was, and the result is the default value, else the example value, else absent.
pub proof fn arg_help_mode_is_pure(spec: ArgSpec, s0: RawArgsView, r: Arg, s1: Seq<Option<Seq<char>>>)
    requires
        s0.metadata.help_mode,
        spec.taken(s0, r, s1),
    ensures
        s1 == s0.slots,
        r.index_of() is None,
        spec.default is Some ==> r is Default && r.value_of() == spec.default->Some_0@,
        spec.default is None && spec.example is Some ==> r is Example && r.value_of()
            == spec.example->Some_0@,
        spec.default is None && spec.example is None ==> r is Absent,
{
}

/// In help mode an option reads no token: the store is left as it was, and the
/// result is the default value, else the example value, else absent.
pub proof fn opt_help_mode_is_pure(spec: OptSpec, s0: RawArgsView, r: Opt, s1: Seq<Option<Seq<char>>>)
    requires
        s0.metadata.help_mode,
        spec.taken(s0, r, s1),
    ensures
        s1 == s0.slots,
        r.index_of() is None,
        spec.default is Some ==> r is Default && r.value_of() == spec.default->Some_0@,
        spec.default is None && spec.example is Some ==> r is Example && r.value_of()
            == spec.example->Some_0@,
        spec.default is None && spec.example is None ==> r is Absent,
{
}

} // verus!
