use vstd::prelude::*;

verus! {

/// Which physical slot of a triple buffer plays each of the three roles.
#[derive(Clone, Copy, Debug, PartialEq, Eq, Structural)]
pub struct RoleTable {
    /// Slot the producer fills next.
    pub render: usize,
    /// Slot holding the most recently completed frame.
    pub ready: usize,
    /// Slot the consumer reads.
    pub present: usize,
}

/// One of the two role transitions of a triple buffer.
#[derive(Clone, Copy, Debug, PartialEq, Eq, Structural)]
pub enum Commit {
    /// The producer publishes its slot: render and ready trade places.
    Render,
    /// The consumer takes the newest frame: ready and present trade places.
    Present,
}

impl RoleTable {
    /// The three roles name the three slots 0, 1 and 2, each exactly once.
    pub open spec fn is_permutation(self) -> bool {
        &&& self.render < 3
        &&& self.ready < 3
        &&& self.present < 3
        &&& self.render != self.ready
        &&& self.ready != self.present
        &&& self.render != self.present
    }

    /// The table after the producer publishes its slot.
    pub open spec fn rendered(self) -> RoleTable {
        RoleTable { render: self.ready, ready: self.render, present: self.present }
    }

    /// The table after the consumer takes the newest frame.
    pub open spec fn presented(self) -> RoleTable {
        RoleTable { render: self.render, ready: self.present, present: self.ready }
    }

    /// The table after one transition.
    pub open spec fn step(self, c: Commit) -> RoleTable {
        match c {
            Commit::Render => self.rendered(),
            Commit::Present => self.presented(),
        }
    }

    /// The table after the transitions of `cs`, first to last.
    pub open spec fn steps(self, cs: Seq<Commit>) -> RoleTable
        decreases cs.len(),
    {
        if cs.len() == 0 {
            self
        } else {
            self.step(cs[0]).steps(cs.subrange(1, cs.len() as int))
        }
    }

    /// The table of a fresh buffer: slot 0 renders, slot 1 is ready, slot 2 is presented.
    pub fn initial() -> (r: RoleTable)
        ensures
            r == (RoleTable { render: 0, ready: 1, present: 2 }),
            r.is_permutation(),
    {
        RoleTable { render: 0, ready: 1, present: 2 }
    }

    /// Exchanges the render and ready roles.
    pub fn commit_render(self) -> (r: RoleTable)
        ensures
            r == self.rendered(),
    {
        RoleTable { render: self.ready, ready: self.render, present: self.present }
    }

    /// Exchanges the ready and present roles.
    pub fn commit_present(self) -> (r: RoleTable)
        ensures
            r == self.presented(),
    {
        RoleTable { render: self.render, ready: self.present, present: self.ready }
    }
}

/// Every sequence of commits, from any permutation, leaves a permutation.
pub proof fn lemma_commits_keep_permutation(t: RoleTable, cs: Seq<Commit>)
    requires
        t.is_permutation(),
    ensures
        t.steps(cs).is_permutation(),
    decreases cs.len(),
{
    if cs.len() > 0 {
        lemma_commits_keep_permutation(t.step(cs[0]), cs.subrange(1, cs.len() as int));
    }
}

/// The slot filled before a render commit is the slot presented after the next present commit.
pub proof fn lemma_rendered_slot_is_presented(t: RoleTable)
    requires
        t.is_permutation(),
    ensures
        t.rendered().presented().present == t.render,
        t.rendered().presented().is_permutation(),
{
}

/// Rendering never targets the presented slot, whatever commits came before.
pub proof fn lemma_render_and_present_disjoint(t: RoleTable, cs: Seq<Commit>)
    requires
        t.is_permutation(),
    ensures
        t.steps(cs).render != t.steps(cs).present,
{
    lemma_commits_keep_permutation(t, cs);
}

} // verus!
