//! Queries over a configuration chain, nearest record first.

use vstd::prelude::*;
use crate::record::{commands_view, copy_value, lookup, FeltRc, FeltRcCommand};

verus! {

/// The entry for `name` in the first record of `chain` that declares it.
pub open spec fn resolve(chain: Seq<FeltRc>, name: Seq<char>) -> Option<FeltRcCommand>
    decreases chain.len(),
{
    if chain.len() == 0 {
        None
    } else {
        match lookup(chain[0].command.commands@, name) {
            Some(c) => Some(c),
            None => resolve(chain.drop_first(), name),
        }
    }
}

/// The first explicit node-modules flag of `chain`; false where no record sets one.
pub open spec fn node_policy(chain: Seq<FeltRc>) -> bool
    decreases chain.len(),
{
    if chain.len() == 0 {
        false
    } else {
        match chain[0].felt.node_modules {
            Some(b) => b,
            None => node_policy(chain.drop_first()),
        }
    }
}

/// Every command of every record of `chain`, record by record in chain order.
pub open spec fn all_commands(chain: Seq<FeltRc>) -> Seq<(Seq<char>, Option<Seq<char>>)>
    decreases chain.len(),
{
    if chain.len() == 0 {
        Seq::empty()
    } else {
        all_commands(chain.drop_last()) + commands_view(chain.last().command.commands@)
    }
}

/// All commands declared along the chain, nearest record first, each record's in table order.
pub fn get_all_commands(rc_list: &Vec<FeltRc>) -> (r: Vec<FeltRcCommand>)
    ensures
        commands_view(r@) == all_commands(rc_list@),
{
    let mut commands: Vec<FeltRcCommand> = Vec::new();
    let n = rc_list.len();
    let mut i: usize = 0;
    while i < n
        invariant
            n == rc_list@.len(),
            0 <= i <= n,
            commands_view(commands@) =~= all_commands(rc_list@.subrange(0, i as int)),
        decreases n - i,
    {
        let cs = &rc_list[i].command.commands;
        let m = cs.len();
        let mut j: usize = 0;
        let ghost start = commands_view(commands@);
        while j < m
            invariant
                m == cs@.len(),
                0 <= j <= m,
                commands_view(commands@) =~= start + commands_view(cs@.subrange(0, j as int)),
            decreases m - j,
        {
            let name = cs[j].name.clone();
            let value = copy_value(&cs[j].value);
            let ghost before = commands@;
            commands.push(FeltRcCommand { name, value });
            assert(commands@ =~= before.push(commands@.last()));
            assert(cs@.subrange(0, j + 1) =~= cs@.subrange(0, j as int).push(cs@[j as int]));
            assert(commands_view(commands@) =~= commands_view(before).push(commands@.last()@));
            assert(commands_view(cs@.subrange(0, j + 1)) =~= commands_view(cs@.subrange(0, j as int)).push(cs@[j as int]@));
            j = j + 1;
        }
        assert(cs@.subrange(0, m as int) =~= cs@);
        assert(rc_list@.subrange(0, i + 1).drop_last() =~= rc_list@.subrange(0, i as int));
        i = i + 1;
    }
    assert(rc_list@.subrange(0, n as int) =~= rc_list@);
    commands
}

/// The command `cmd_name` resolves to: the entry in the nearest record that declares
/// the name, with or without a value; `None` where no record declares it.
pub fn get_command<'a>(rc_list: &'a Vec<FeltRc>, cmd_name: &str) -> (r: Option<&'a FeltRcCommand>)
    ensures
        match r {
            Some(c) => resolve(rc_list@, cmd_name@) == Some(*c),
            None => resolve(rc_list@, cmd_name@) is None,
        },
{
    let n = rc_list.len();
    let mut i: usize = 0;
    assert(rc_list@.subrange(0, n as int) =~= rc_list@);
    while i < n
        invariant
            n == rc_list@.len(),
            0 <= i <= n,
            resolve(rc_list@, cmd_name@) == resolve(rc_list@.subrange(i as int, n as int), cmd_name@),
        decreases n - i,
    {
        assert(rc_list@.subrange(i as int, n as int).drop_first() =~= rc_list@.subrange(i + 1, n as int));
        match rc_list[i].command.get(cmd_name) {
            None => {},
            c => return c,
        }
        i = i + 1;
    }
    None
}

/// Whether executables under `node_modules/.bin` are considered: the flag of the
/// nearest record that sets it, false where none does.
pub fn uses_node_modules(rc_list: &Vec<FeltRc>) -> (r: bool)
    ensures
        r == node_policy(rc_list@),
{
    let n = rc_list.len();
    let mut i: usize = 0;
    assert(rc_list@.subrange(0, n as int) =~= rc_list@);
    while i < n
        invariant
            n == rc_list@.len(),
            0 <= i <= n,
            node_policy(rc_list@) == node_policy(rc_list@.subrange(i as int, n as int)),
        decreases n - i,
    {
        assert(rc_list@.subrange(i as int, n as int).drop_first() =~= rc_list@.subrange(i + 1, n as int));
        match rc_list[i].felt.node_modules {
            Some(b) => return b,
            None => {},
        }
        i = i + 1;
    }
    false
}

/// Nearest wins: where record `i` is the first to declare `name`, resolution yields
/// that record's entry, whether or not the entry has a value.
pub proof fn lemma_nearest_declaration_wins(chain: Seq<FeltRc>, name: Seq<char>, i: int)
    requires
        0 <= i < chain.len(),
        lookup(chain[i].command.commands@, name) is Some,
        forall|k: int| 0 <= k < i ==> (#[trigger] lookup(chain[k].command.commands@, name)) is None,
    ensures
        resolve(chain, name) == lookup(chain[i].command.commands@, name),
    decreases i,
{
    if i > 0 {
        let rest = chain.drop_first();
        assert forall|k: int| 0 <= k < i - 1 implies (#[trigger] lookup(rest[k].command.commands@, name)) is None by {
            assert(rest[k] == chain[k + 1]);
        }
        assert(lookup(chain[0].command.commands@, name) is None);
        lemma_nearest_declaration_wins(rest, name, i - 1);
    }
}

/// Shadowing: once the nearer part of a chain declares `name` (even without a value),
/// the farther records cannot change what `name` resolves to.
pub proof fn lemma_farther_records_shadowed(near: Seq<FeltRc>, far: Seq<FeltRc>, name: Seq<char>)
    requires
        resolve(near, name) is Some,
    ensures
        resolve(near + far, name) == resolve(near, name),
    decreases near.len(),
{
    let whole = near + far;
    assert(whole[0] == near[0]);
    if lookup(near[0].command.commands@, name) is None {
        assert(whole.drop_first() =~= near.drop_first() + far);
        lemma_farther_records_shadowed(near.drop_first(), far, name);
    }
}

/// A record that leaves the node-modules flag unset does not affect the policy.
pub proof fn lemma_unset_flag_transparent(near: Seq<FeltRc>, r: FeltRc, far: Seq<FeltRc>)
    requires
        r.felt.node_modules is None,
    ensures
        node_policy(near + seq![r] + far) == node_policy(near + far),
    decreases near.len(),
{
    if near.len() == 0 {
        assert(near + seq![r] + far =~= seq![r] + far);
        assert((seq![r] + far).drop_first() =~= far);
        assert(near + far =~= far);
    } else {
        assert((near + seq![r] + far).drop_first() =~= near.drop_first() + seq![r] + far);
        assert((near + far).drop_first() =~= near.drop_first() + far);
        assert((near + seq![r] + far)[0] == near[0]);
        assert((near + far)[0] == near[0]);
        lemma_unset_flag_transparent(near.drop_first(), r, far);
    }
}

/// Nearest explicit flag wins: where record `i` is the first to set the flag,
/// the policy is that record's value.
pub proof fn lemma_nearest_flag_wins(chain: Seq<FeltRc>, i: int)
    requires
        0 <= i < chain.len(),
        chain[i].felt.node_modules is Some,
        forall|k: int| 0 <= k < i ==> (#[trigger] chain[k].felt.node_modules) is None,
    ensures
        node_policy(chain) == chain[i].felt.node_modules.unwrap(),
    decreases i,
{
    if i > 0 {
        let rest = chain.drop_first();
        assert forall|k: int| 0 <= k < i - 1 implies (#[trigger] rest[k].felt.node_modules) is None by {
            assert(rest[k] == chain[k + 1]);
        }
        assert(chain[0].felt.node_modules is None);
        lemma_nearest_flag_wins(rest, i - 1);
    }
}

/// Where no record sets the node-modules flag, the policy is false.
pub proof fn lemma_policy_defaults_false(chain: Seq<FeltRc>)
    requires
        forall|k: int| 0 <= k < chain.len() ==> (#[trigger] chain[k].felt.node_modules) is None,
    ensures
        !node_policy(chain),
    decreases chain.len(),
{
    if chain.len() > 0 {
        let rest = chain.drop_first();
        assert forall|k: int| 0 <= k < rest.len() implies (#[trigger] rest[k].felt.node_modules) is None by {
            assert(rest[k] == chain[k + 1]);
        }
        assert(chain[0].felt.node_modules is None);
        lemma_policy_defaults_false(rest);
    }
}

} // verus!
