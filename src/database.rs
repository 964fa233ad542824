use vstd::prelude::*;

verus! {

/// One of the two alternating on-disk snapshot roots.
#[derive(Debug, Clone, Copy, PartialEq, Eq, Structural)]
pub enum Generation {
    Tick,
    Tock,
}

/// The generation that follows `g`.
pub open spec fn next_generation(g: Generation) -> Generation {
    match g {
        Generation::Tick => Generation::Tock,
        Generation::Tock => Generation::Tick,
    }
}

/// The directory name of the root of generation `g`.
pub open spec fn generation_name(g: Generation) -> Seq<char> {
    match g {
        Generation::Tick => seq!['t', 'i', 'c', 'k'],
        Generation::Tock => seq!['t', 'o', 'c', 'k'],
    }
}

impl Generation {
    /// The generation that follows this one: tick and tock alternate.
    pub fn incremented(self) -> (r: Self)
        ensures
            r == next_generation(self),
            r != self,
    {
        match self {
            Generation::Tick => Generation::Tock,
            Generation::Tock => Generation::Tick,
        }
    }

    /// The directory name of this generation's root, under the database root.
    pub fn name(self) -> (r: &'static str)
        ensures
            r@ == generation_name(self),
    {
        match self {
            Generation::Tick => {
                proof {
                    reveal_strlit("tick");
                }
                "tick"
            },
            Generation::Tock => {
                proof {
                    reveal_strlit("tock");
                }
                "tock"
            },
        }
    }
}

impl Default for Generation {
    /// A new database starts at tick.
    fn default() -> (r: Self)
        ensures
            r == Generation::Tick,
    {
        Generation::Tick
    }
}

/// What the embedding program must do to serve `begin`.
#[derive(Debug, Clone, Copy, PartialEq, Eq, Structural)]
pub enum BeginAction {
    /// Another transaction is open: wait until it commits or is dropped.
    Wait,
    /// Clone the root of `from` into the root of `to`, which the new
    /// transaction then writes.
    Clone { from: Generation, to: Generation },
}

/// What the embedding program must do to finish a commit.
#[derive(Debug, Clone, Copy, PartialEq, Eq, Structural)]
pub struct CommitAction {
    /// The root that readers see from now on.
    pub published: Generation,
    /// The root of the displaced snapshot, to delete recursively.
    pub removed: Generation,
}

/// The generation state of a database: which root is the committed read view,
/// and which root an open write transaction works on, if one is open.
///
/// At most one transaction is open at a time, and its root is always the
/// generation that follows the committed one.
#[derive(Debug, Clone, Copy, PartialEq, Eq, Structural)]
pub struct Versions {
    pub committed: Generation,
    pub writer: Option<Generation>,
}

/// The state after a call of `begin` on `s`.
pub open spec fn begin_next(s: Versions) -> Versions {
    if s.writer is Some {
        s
    } else {
        Versions { committed: s.committed, writer: Some(next_generation(s.committed)) }
    }
}

/// What a call of `begin` on `s` asks for.
pub open spec fn begin_action(s: Versions) -> BeginAction {
    if s.writer is Some {
        BeginAction::Wait
    } else {
        BeginAction::Clone { from: s.committed, to: next_generation(s.committed) }
    }
}

/// The state after a call of `commit` on `s`.
pub open spec fn commit_next(s: Versions) -> Versions {
    match s.writer {
        Some(w) => Versions { committed: w, writer: None },
        None => s,
    }
}

/// The state after the open transaction of `s`, if any, is dropped.
pub open spec fn rollback_next(s: Versions) -> Versions {
    Versions { committed: s.committed, writer: None }
}

impl Versions {
    /// The state invariant: an open transaction writes the generation that
    /// follows the committed one.
    pub open spec fn wf(self) -> bool {
        match self.writer {
            Some(w) => w == next_generation(self.committed),
            None => true,
        }
    }

    /// A new database: tick is committed and no transaction is open.
    pub fn new() -> (r: Self)
        ensures
            r == (Versions { committed: Generation::Tick, writer: None }),
            r.wf(),
    {
        Versions { committed: Generation::Tick, writer: None }
    }

    /// Asks to open a write transaction. While another one is open the answer
    /// is to wait and nothing changes; otherwise the transaction is open from
    /// now on and writes a clone of the committed root under the next
    /// generation.
    pub fn begin(&mut self) -> (r: BeginAction)
        ensures
            *final(self) == begin_next(*old(self)),
            r == begin_action(*old(self)),
            old(self).wf() ==> final(self).wf(),
    {
        match self.writer {
            Some(_) => BeginAction::Wait,
            None => {
                let to = self.committed.incremented();
                self.writer = Some(to);
                BeginAction::Clone { from: self.committed, to }
            },
        }
    }

    /// Commits the open transaction: its root becomes the committed one and
    /// the displaced root is to be removed. Without an open transaction this
    /// returns `None` and changes nothing.
    pub fn commit(&mut self) -> (r: Option<CommitAction>)
        ensures
            *final(self) == commit_next(*old(self)),
            r == match old(self).writer {
                Some(w) => Some(CommitAction { published: w, removed: old(self).committed }),
                None => None::<CommitAction>,
            },
            old(self).wf() ==> final(self).wf(),
    {
        match self.writer {
            Some(w) => {
                let removed = self.committed;
                self.committed = w;
                self.writer = None;
                Some(CommitAction { published: w, removed })
            },
            None => None,
        }
    }

    /// Drops the open transaction without committing it; returns the root it
    /// wrote, which is never published and is to be removed.
    pub fn rollback(&mut self) -> (r: Option<Generation>)
        ensures
            *final(self) == rollback_next(*old(self)),
            r == old(self).writer,
            final(self).wf(),
    {
        let r = self.writer;
        self.writer = None;
        r
    }
}

/// Successive commits alternate the committed root: each commit publishes the
/// generation after the committed one and removes the root that was committed
/// before it, and two rounds of begin and commit come back to the first root.
pub proof fn lemma_generation_alternation(s: Versions)
    requires
        s.wf(),
        s.writer is None,
    ensures
        commit_next(begin_next(s)).committed == next_generation(s.committed),
        next_generation(s.committed) != s.committed,
        commit_next(begin_next(commit_next(begin_next(s)))).committed == s.committed,
        commit_next(begin_next(s)).writer is None,
{
}

/// The state after `n` rounds of a transaction that begins and commits.
pub open spec fn commit_rounds(s: Versions, n: nat) -> Versions
    decreases n,
{
    if n == 0 {
        s
    } else {
        commit_next(begin_next(commit_rounds(s, (n - 1) as nat)))
    }
}

/// Over any number `n` of committed transactions from a new database, the
/// committed root alternates: tick after an even number of commits, tock
/// after an odd one, and no transaction is left open.
pub proof fn lemma_generation_alternation_rounds(n: nat)
    ensures
        commit_rounds(Versions { committed: Generation::Tick, writer: None }, n).committed == (if n
            % 2 == 0 {
            Generation::Tick
        } else {
            Generation::Tock
        }),
        commit_rounds(Versions { committed: Generation::Tick, writer: None }, n).writer is None,
    decreases n,
{
    if n > 0 {
        lemma_generation_alternation_rounds((n - 1) as nat);
    }
}

/// A transaction begun after a commit clones the root that the committed
/// transaction wrote; one begun after a transaction was dropped clones the
/// same root as that transaction did, so none of the dropped writes is seen.
pub proof fn lemma_commit_visibility(s: Versions)
    requires
        s.wf(),
        s.writer is None,
    ensures
        begin_action(commit_next(begin_next(s))) == (BeginAction::Clone {
            from: begin_next(s).writer->Some_0,
            to: s.committed,
        }),
        begin_action(rollback_next(begin_next(s))) == begin_action(s),
{
}

/// While a transaction is open, `begin` only asks to wait, and the state stays
/// as it was until that transaction commits or is dropped; after either, a
/// new one can begin.
pub proof fn lemma_single_writer(s: Versions)
    requires
        s.wf(),
        s.writer is Some,
    ensures
        begin_action(s) == BeginAction::Wait,
        begin_next(s) == s,
        begin_action(commit_next(s)) is Clone,
        begin_action(rollback_next(s)) is Clone,
{
}

} // verus!
