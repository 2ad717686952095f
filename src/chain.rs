//! Building the configuration chain: the walk from the working directory upward,
//! one directory level at a time, and the home-file fallback at its end.
//!
//! Reading files is left to the caller: it reports each level's outcome to a
//! [`ChainWalk`], moves to the parent directory until the walk is finished, and
//! hands over the home file's record where the walk asks for it.

use vstd::prelude::*;
use crate::record::FeltRc;

verus! {

/// A directory level as the walk consulted it: whether its file is the home file,
/// and the record loaded there (`None` where the file is missing or malformed).
pub type Level = (bool, Option<FeltRc>);

/// Whether some level of `levels` holds a root-marked record.
pub open spec fn has_root(levels: Seq<Level>) -> bool
    decreases levels.len(),
{
    if levels.len() == 0 {
        false
    } else {
        match levels[0].1 {
            Some(r) => r.spec_is_root() || has_root(levels.drop_first()),
            None => has_root(levels.drop_first()),
        }
    }
}

/// The records the walk collects from `levels`, nearest first, up to and including
/// the first root-marked one.
pub open spec fn walk_records(levels: Seq<Level>) -> Seq<FeltRc>
    decreases levels.len(),
{
    if levels.len() == 0 {
        Seq::empty()
    } else {
        match levels[0].1 {
            Some(r) => if r.spec_is_root() {
                seq![r]
            } else {
                seq![r] + walk_records(levels.drop_first())
            },
            None => walk_records(levels.drop_first()),
        }
    }
}

/// Whether the walk over `levels` reaches the home file before it stops at a root.
pub open spec fn home_visited(levels: Seq<Level>) -> bool
    decreases levels.len(),
{
    if levels.len() == 0 {
        false
    } else if levels[0].0 {
        true
    } else {
        match levels[0].1 {
            Some(r) => !r.spec_is_root() && home_visited(levels.drop_first()),
            None => home_visited(levels.drop_first()),
        }
    }
}

/// The chain for the ancestor levels `levels` (nearest first) and the home file's
/// record `home`: the walk's records, then the home record where the walk did not
/// reach the home file.
pub open spec fn chain_of(levels: Seq<Level>, home: Option<FeltRc>) -> Seq<FeltRc> {
    if !home_visited(levels) && home is Some {
        walk_records(levels).push(home.unwrap())
    } else {
        walk_records(levels)
    }
}

/// The records present at `levels`, in order.
pub open spec fn present_records(levels: Seq<Level>) -> Seq<FeltRc>
    decreases levels.len(),
{
    if levels.len() == 0 {
        Seq::empty()
    } else {
        match levels[0].1 {
            Some(r) => seq![r] + present_records(levels.drop_first()),
            None => present_records(levels.drop_first()),
        }
    }
}

/// How a walk over `a` followed by `b` decomposes when `a` holds no root.
pub proof fn lemma_walk_concat(a: Seq<Level>, b: Seq<Level>)
    requires
        !has_root(a),
    ensures
        walk_records(a + b) == walk_records(a) + walk_records(b),
        home_visited(a + b) == (home_visited(a) || home_visited(b)),
        has_root(a + b) == has_root(b),
    decreases a.len(),
{
    if a.len() == 0 {
        assert(a + b =~= b);
        assert(walk_records(a) + walk_records(b) =~= walk_records(b));
    } else {
        assert((a + b).drop_first() =~= a.drop_first() + b);
        assert((a + b)[0] == a[0]);
        lemma_walk_concat(a.drop_first(), b);
        match a[0].1 {
            Some(r) => {
                assert(seq![r] + walk_records(a.drop_first()) + walk_records(b)
                    =~= seq![r] + (walk_records(a.drop_first()) + walk_records(b)));
            },
            None => {},
        }
    }
}

/// A walk over one level.
pub proof fn lemma_walk_single(x: Level)
    ensures
        walk_records(seq![x]) == (match x.1 {
            Some(r) => seq![r],
            None => Seq::<FeltRc>::empty(),
        }),
        home_visited(seq![x]) == x.0,
        has_root(seq![x]) == (x.1 is Some && x.1.unwrap().spec_is_root()),
{
    let e = seq![x].drop_first();
    assert(e =~= Seq::<Level>::empty());
    assert(walk_records(e) == Seq::<FeltRc>::empty());
    assert(!home_visited(e));
    assert(!has_root(e));
    match x.1 {
        Some(r) => {
            assert(seq![r] + Seq::<FeltRc>::empty() =~= seq![r]);
        },
        None => {},
    }
}

/// With no root-marked record, the chain holds every record present along the
/// walk in nearest-first order, followed by the home record exactly when the home
/// file is present and none of the levels was the home file.
pub proof fn lemma_no_root_keeps_every_level(levels: Seq<Level>, home: Option<FeltRc>)
    requires
        !has_root(levels),
    ensures
        walk_records(levels) == present_records(levels),
        home_visited(levels) == (exists|k: int| 0 <= k < levels.len() && (#[trigger] levels[k]).0),
        chain_of(levels, home) == (if (forall|k: int| 0 <= k < levels.len() ==> !(#[trigger] levels[k]).0) && home is Some {
            present_records(levels).push(home.unwrap())
        } else {
            present_records(levels)
        }),
    decreases levels.len(),
{
    if levels.len() > 0 {
        let rest = levels.drop_first();
        lemma_no_root_keeps_every_level(rest, home);
        if levels[0].0 {
            assert(levels[0].0);
        } else if home_visited(rest) {
            let k = choose|k: int| 0 <= k < rest.len() && (#[trigger] rest[k]).0;
            assert(levels[k + 1] == rest[k]);
        } else {
            assert forall|k: int| 0 <= k < levels.len() implies !(#[trigger] levels[k]).0 by {
                if k > 0 {
                    assert(levels[k] == rest[k - 1]);
                }
            }
        }
    }
}

/// A root-marked record truncates the chain: levels beyond it are not consulted, and
/// the home record is appended only where the home file was not among the levels up
/// to and including the root-marked one.
pub proof fn lemma_root_truncates(near: Seq<Level>, x: Level, far: Seq<Level>, home: Option<FeltRc>)
    requires
        !has_root(near),
        x.1 is Some,
        x.1.unwrap().spec_is_root(),
    ensures
        walk_records(near + seq![x] + far) == walk_records(near).push(x.1.unwrap()),
        home_visited(near + seq![x] + far) == (home_visited(near) || x.0),
        chain_of(near + seq![x] + far, home) == chain_of(near.push(x), home),
{
    let r = x.1.unwrap();
    let tail = seq![x] + far;
    assert(near + seq![x] + far =~= near + tail);
    lemma_walk_concat(near, tail);
    lemma_walk_concat(near, seq![x]);
    lemma_walk_single(x);
    assert(tail[0] == x);
    assert(walk_records(tail) == seq![r]);
    assert(home_visited(tail) == x.0);
    assert(near + seq![x] =~= near.push(x));
    assert(walk_records(near) + seq![r] =~= walk_records(near).push(r));
}

/// A level whose file is missing or malformed contributes nothing and removes nothing:
/// the records of the other levels all stay, in their order.
pub proof fn lemma_unloaded_level_drops_only_itself(near: Seq<Level>, is_home: bool, far: Seq<Level>)
    requires
        !has_root(near),
    ensures
        walk_records(near + seq![(is_home, None::<FeltRc>)] + far) == walk_records(near) + walk_records(far),
{
    let x: Level = (is_home, None);
    lemma_walk_concat(near, seq![x]);
    lemma_walk_single(x);
    lemma_walk_concat(near + seq![x], far);
    assert(walk_records(near) + Seq::<FeltRc>::empty() =~= walk_records(near));
}

/// The state of one walk: the records collected so far, whether the home file was
/// among the files consulted, and whether the walk has ended.
pub struct ChainWalk {
    chain: Vec<FeltRc>,
    home_checked: bool,
    finished: bool,
    levels: Ghost<Seq<Level>>,
}

impl ChainWalk {
    /// The levels consulted so far, nearest first.
    pub closed spec fn levels(&self) -> Seq<Level> {
        self.levels@
    }

    /// Whether the walk has ended, at a root-marked record or at the filesystem root.
    pub closed spec fn spec_finished(&self) -> bool {
        self.finished
    }

    pub closed spec fn wf(&self) -> bool {
        &&& self.chain@ == walk_records(self.levels@)
        &&& self.home_checked == home_visited(self.levels@)
        &&& has_root(self.levels@) ==> self.finished
    }

    /// A walk that has consulted nothing yet.
    pub fn new() -> (r: ChainWalk)
        ensures
            r.wf(),
            r.levels() == Seq::<Level>::empty(),
            !r.spec_finished(),
    {
        ChainWalk { chain: Vec::new(), home_checked: false, finished: false, levels: Ghost(Seq::empty()) }
    }

    /// Records the outcome of one level: `is_home` tells whether the level's file is the
    /// home file, `loaded` is its record (if it was read and parsed), and `has_parent`
    /// whether the directory has a parent to move to.
    pub fn visit(&mut self, is_home: bool, loaded: Option<FeltRc>, has_parent: bool)
        requires
            old(self).wf(),
            !old(self).spec_finished(),
        ensures
            final(self).wf(),
            final(self).levels() == old(self).levels().push((is_home, loaded)),
            final(self).spec_finished() == (!has_parent || (loaded is Some && loaded.unwrap().spec_is_root())),
    {
        let ghost x: Level = (is_home, loaded);
        proof {
            lemma_walk_concat(self.levels@, seq![x]);
            lemma_walk_single(x);
            assert(self.levels@ + seq![x] =~= self.levels@.push(x));
        }
        if is_home {
            self.home_checked = true;
        }
        let mut stop = !has_parent;
        match loaded {
            Some(rc) => {
                if rc.is_root() {
                    stop = true;
                }
                self.chain.push(rc);
            },
            None => {},
        }
        self.finished = stop;
        self.levels = Ghost(self.levels@.push(x));
        proof {
            assert(self.chain@ =~= walk_records(self.levels@));
        }
    }

    /// Whether the walk has ended.
    pub fn is_finished(&self) -> (r: bool)
        ensures
            r == self.spec_finished(),
    {
        self.finished
    }

    /// Whether the home file still has to be loaded, because the walk did not reach it.
    pub fn needs_home(&self) -> (r: bool)
        requires
            self.wf(),
        ensures
            r == !home_visited(self.levels()),
    {
        !self.home_checked
    }

    /// The finished chain, with `home` (the home file's record, if any) appended where
    /// the walk did not reach the home file.
    pub fn finish(self, home: Option<FeltRc>) -> (r: Vec<FeltRc>)
        requires
            self.wf(),
        ensures
            r@ == chain_of(self.levels(), home),
    {
        let mut chain = self.chain;
        if !self.home_checked {
            match home {
                Some(rc) => chain.push(rc),
                None => {},
            }
        }
        chain
    }
}

} // verus!
