//! The records read from one configuration file.

use vstd::prelude::*;
use crate::table::{entries_of, table_entries};

verus! {

/// The `[felt]` section of a configuration file.
#[derive(Debug, Copy, Clone, PartialEq, Eq, Structural)]
pub struct FeltRcFeltSection {
    /// Whether the upward search stops at this file.
    pub root: Option<bool>,
    /// Whether executables under `node_modules/.bin` are considered; `None` defers to ancestors.
    pub node_modules: Option<bool>,
}

impl FeltRcFeltSection {
    /// A section marks the top of the hierarchy only when `root` is explicitly true.
    pub open spec fn spec_is_root(&self) -> bool {
        self.root == Some(true)
    }

    pub fn is_root(&self) -> (r: bool)
        ensures
            r == self.spec_is_root(),
    {
        match self.root {
            Some(b) => b,
            None => false,
        }
    }
}

/// One entry of a `[command]` section; `value` is `None` when the entry is not a string.
#[derive(Debug, Clone)]
pub struct FeltRcCommand {
    pub name: String,
    pub value: Option<String>,
}

impl View for FeltRcCommand {
    type V = (Seq<char>, Option<Seq<char>>);

    open spec fn view(&self) -> (Seq<char>, Option<Seq<char>>) {
        (self.name@, opt_view(self.value))
    }
}

/// The text of an optional string.
pub open spec fn opt_view(v: Option<String>) -> Option<Seq<char>> {
    match v {
        Some(s) => Some(s@),
        None => None,
    }
}

/// A copy of an optional command value.
pub(crate) fn copy_value(v: &Option<String>) -> (r: Option<String>)
    ensures
        opt_view(r) == opt_view(*v),
{
    match v {
        Some(s) => Some(s.clone()),
        None => None,
    }
}

/// The views of a list of commands, in order.
pub open spec fn commands_view(cs: Seq<FeltRcCommand>) -> Seq<(Seq<char>, Option<Seq<char>>)> {
    cs.map_values(|c: FeltRcCommand| c@)
}

/// The first command named `name` in `cs`, if any.
pub open spec fn lookup(cs: Seq<FeltRcCommand>, name: Seq<char>) -> Option<FeltRcCommand>
    decreases cs.len(),
{
    if cs.len() == 0 {
        None
    } else if cs[0].name@ == name {
        Some(cs[0])
    } else {
        lookup(cs.drop_first(), name)
    }
}

/// Relies on `str`'s `==`: two strings are equal exactly when their characters are.
#[verifier::external_body]
fn same_text(a: &str, b: &str) -> (r: bool)
    ensures
        r == (a@ == b@),
{
    a == b
}

/// The `[command]` section of a configuration file, in the order the file's table lists it.
#[derive(Debug, Clone)]
pub struct FeltRcCommandSection {
    pub commands: Vec<FeltRcCommand>,
}

impl FeltRcCommandSection {
    /// The first command of the section named exactly `name`.
    pub fn get(&self, name: &str) -> (r: Option<&FeltRcCommand>)
        ensures
            match r {
                Some(c) => lookup(self.commands@, name@) == Some(*c),
                None => lookup(self.commands@, name@) is None,
            },
    {
        let n = self.commands.len();
        let mut i: usize = 0;
        assert(self.commands@.subrange(0, n as int) =~= self.commands@);
        while i < n
            invariant
                n == self.commands@.len(),
                0 <= i <= n,
                lookup(self.commands@, name@) == lookup(self.commands@.subrange(i as int, n as int), name@),
            decreases n - i,
        {
            let c = &self.commands[i];
            assert(self.commands@.subrange(i as int, n as int).drop_first() =~= self.commands@.subrange(i + 1, n as int));
            if same_text(c.name.as_str(), name) {
                return Some(c);
            }
            i = i + 1;
        }
        assert(self.commands@.subrange(n as int, n as int).len() == 0);
        None
    }
}

/// One configuration file's content.
#[derive(Debug, Clone)]
pub struct FeltRc {
    pub felt: FeltRcFeltSection,
    pub command: FeltRcCommandSection,
}

impl FeltRc {
    pub open spec fn spec_is_root(&self) -> bool {
        self.felt.spec_is_root()
    }

    pub fn is_root(&self) -> (r: bool)
        ensures
            r == self.spec_is_root(),
    {
        self.felt.is_root()
    }
}

/// A configuration file as its parser yields it: the `[felt]` section and the
/// raw `[command]` table, if the file has one.
#[derive(Debug)]
pub struct FeltRcToml {
    pub felt: FeltRcFeltSection,
    pub command: Option<toml::map::Map<String, toml::Value>>,
}

/// The commands a parsed file declares, in table order; none without a `[command]` table.
pub open spec fn declared_commands(t: FeltRcToml) -> Seq<(Seq<char>, Option<Seq<char>>)> {
    match t.command {
        Some(m) => table_entries(m),
        None => Seq::empty(),
    }
}

/// The record for a parsed file: its `[felt]` section and one command per table entry.
pub fn toml_to_feltrc(toml: &FeltRcToml) -> (r: FeltRc)
    ensures
        r.felt == toml.felt,
        commands_view(r.command.commands@) == declared_commands(*toml),
{
    let mut commands: Vec<FeltRcCommand> = Vec::new();
    match &toml.command {
        Some(m) => {
            let entries = entries_of(m);
            let n = entries.len();
            let mut i: usize = 0;
            while i < n
                invariant
                    n == entries@.len(),
                    0 <= i <= n,
                    entries@.len() == table_entries(*m).len(),
                    forall|k: int| 0 <= k < entries@.len() ==> (#[trigger] entries@[k]).0@ == table_entries(*m)[k].0 && opt_view(entries@[k].1) == table_entries(*m)[k].1,
                    commands@.len() == i,
                    commands_view(commands@) =~= table_entries(*m).subrange(0, i as int),
                decreases n - i,
            {
                let name = entries[i].0.clone();
                let value = copy_value(&entries[i].1);
                let ghost before = commands@;
                commands.push(FeltRcCommand { name, value });
                assert(commands@ =~= before.push(commands@[i as int]));
                assert(commands_view(commands@) =~= commands_view(before).push(commands@[i as int]@));
                i = i + 1;
            }
        },
        None => {},
    }
    FeltRc { felt: toml.felt, command: FeltRcCommandSection { commands } }
}

} // verus!
