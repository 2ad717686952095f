//! What the command-line front end does with a command name, given the chain.

use vstd::prelude::*;
use vstd::string::StringExecFns;
use crate::record::FeltRc;
use crate::resolve::{get_command, node_policy, resolve, uses_node_modules};

verus! {

/// What to do for a command name.
#[derive(Debug, Clone, PartialEq, Eq)]
pub enum Dispatch {
    /// Run this shell command.
    Run(String),
    /// Run the executable of that name under `node_modules/.bin`.
    NodeBin,
    /// The name is declared without a value: show the usage text.
    Usage,
    /// The name is declared nowhere and no local executable applies.
    NotFound,
}

/// The action for `cmd_name`: a declared value runs; a declaration without a value
/// asks for the usage text; an undeclared name runs the local executable where the
/// policy allows it and `node_bin_exists` reports one, and is not found otherwise.
pub fn dispatch(rc_list: &Vec<FeltRc>, cmd_name: &str, node_bin_exists: bool) -> (r: Dispatch)
    ensures
        match resolve(rc_list@, cmd_name@) {
            Some(c) => match c.value {
                Some(v) => r matches Dispatch::Run(s) && s@ == v@,
                None => r == Dispatch::Usage,
            },
            None => if node_policy(rc_list@) && node_bin_exists {
                r == Dispatch::NodeBin
            } else {
                r == Dispatch::NotFound
            },
        },
{
    let uses_node = uses_node_modules(rc_list);
    match get_command(rc_list, cmd_name) {
        Some(c) => match &c.value {
            Some(v) => Dispatch::Run(v.clone()),
            None => Dispatch::Usage,
        },
        None => if uses_node && node_bin_exists {
            Dispatch::NodeBin
        } else {
            Dispatch::NotFound
        },
    }
}

/// `words` joined with single spaces.
pub open spec fn joined(words: Seq<Seq<char>>) -> Seq<char>
    decreases words.len(),
{
    if words.len() == 0 {
        Seq::empty()
    } else if words.len() == 1 {
        words[0]
    } else {
        joined(words.drop_last()) + seq![' '] + words.last()
    }
}

/// The line handed to the shell: the command, a space, and the arguments joined
/// with single spaces.
pub fn shell_line(command: &str, args: &Vec<String>) -> (r: String)
    ensures
        r@ == command@ + seq![' '] + joined(args@.map_values(|a: String| a@)),
{
    let ghost words = args@.map_values(|a: String| a@);
    proof {
        reveal_strlit(" ");
    }
    let mut line = String::new();
    line.append(command);
    line.append(" ");
    let ghost head = line@;
    let n = args.len();
    let mut i: usize = 0;
    while i < n
        invariant
            n == args@.len(),
            0 <= i <= n,
            words == args@.map_values(|a: String| a@),
            " "@ == seq![' '],
            line@ == head + joined(words.subrange(0, i as int)),
        decreases n - i,
    {
        let ghost before = line@;
        if i > 0 {
            line.append(" ");
        }
        line.append(args[i].as_str());
        proof {
            let pre = words.subrange(0, i as int);
            let next = words.subrange(0, i + 1);
            assert(next.drop_last() =~= pre);
            assert(next.last() == args@[i as int]@);
            if i == 0 {
                assert(pre.len() == 0);
                assert(joined(pre) == Seq::<char>::empty());
                assert(before + args@[i as int]@ =~= head + args@[i as int]@);
            } else {
                assert(line@ =~= head + (joined(pre) + seq![' '] + args@[i as int]@));
            }
        }
        i = i + 1;
    }
    assert(words.subrange(0, n as int) =~= words);
    line
}

/// The login shell: the one named (`SHELL`, where it is set), else `sh`.
pub fn login_shell_or_default(shell: Option<String>) -> (r: String)
    ensures
        r@ == (match shell {
            Some(s) => s@,
            None => "sh"@,
        }),
{
    match shell {
        Some(s) => s,
        None => String::from_str("sh"),
    }
}

} // verus!
