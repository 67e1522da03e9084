//! The state of a widget around one event: as it was when the session
//! began, as it was last committed, and as it is being worked on.
use vstd::prelude::*;
use crate::grapheme::{StyledGraphemes, StyledRow};
use crate::pane::{Pane, PaneView};
use crate::replicate::Replicate;
use crate::PaneFactory;

verus! {

/// The view of a snapshot: the views of its three states.
pub struct SnapshotView<V> {
    pub init: V,
    pub before: V,
    pub after: V,
}

impl<V> SnapshotView<V> {
    /// The snapshot that a session begins with: all three states are `v`.
    pub open spec fn fresh(v: V) -> SnapshotView<V> {
        SnapshotView { init: v, before: v, after: v }
    }

    /// The working state taken over as the committed one.
    pub open spec fn commit(self) -> SnapshotView<V> {
        SnapshotView { before: self.after, ..self }
    }

    /// The working state given up for the committed one.
    pub open spec fn revert(self) -> SnapshotView<V> {
        SnapshotView { after: self.before, ..self }
    }

    /// The working state given up for the initial one.
    pub open spec fn reset(self) -> SnapshotView<V> {
        SnapshotView { after: self.init, ..self }
    }

    /// What finalizing hands out: the working state.
    pub open spec fn result(self) -> V {
        self.after
    }
}

/// Finalizing hands out the working state and leaves the initial one in its
/// place, so finalizing once more hands out the initial state and changes
/// nothing further.
pub proof fn lemma_finalize_twice<V>(s: SnapshotView<V>)
    ensures
        s.reset().result() == s.init,
        s.reset().reset() == s.reset(),
        s.reset().init == s.init,
        s.reset().before == s.before,
{
}

/// No operation on a snapshot changes its initial state, and none but a
/// commit changes the committed one.
pub proof fn lemma_init_is_fixed<V>(s: SnapshotView<V>)
    ensures
        s.commit().init == s.init,
        s.revert().init == s.init,
        s.reset().init == s.init,
        s.revert().before == s.before,
        s.reset().before == s.before,
        s.commit().after == s.after,
{
}

/// The three states of a widget.
pub struct Snapshot<S: Replicate> {
    init: S,
    before: S,
    after: S,
}

impl<S: Replicate> View for Snapshot<S> {
    type V = SnapshotView<S::V>;

    closed spec fn view(&self) -> SnapshotView<S::V> {
        SnapshotView { init: self.init@, before: self.before@, after: self.after@ }
    }
}

impl<S: Replicate> Snapshot<S> {
    /// The snapshot that a session begins with.
    pub fn new(state: S) -> (s: Self)
        ensures
            s@ == SnapshotView::fresh(state@),
    {
        Snapshot { init: state.replicate(), before: state.replicate(), after: state }
    }

    /// The state as it was when the session began.
    pub fn init(&self) -> (s: &S)
        ensures
            s@ == self@.init,
    {
        &self.init
    }

    /// The state as it was last committed.
    pub fn before(&self) -> (s: &S)
        ensures
            s@ == self@.before,
    {
        &self.before
    }

    /// The state as it is being worked on.
    pub fn after(&self) -> (s: &S)
        ensures
            s@ == self@.after,
    {
        &self.after
    }

    /// The working state, to be changed in place.
    pub fn after_mut(&mut self) -> (s: &mut S)
        ensures
            s@ == old(self)@.after,
            final(self)@ == (SnapshotView { after: final(s)@, ..old(self)@ }),
    {
        &mut self.after
    }

    /// Replaces the working state.
    pub fn set_after(&mut self, state: S)
        ensures
            final(self)@ == (SnapshotView { after: state@, ..old(self)@ }),
    {
        self.after = state;
    }

    /// Takes the working state over as the committed one.
    pub fn commit(&mut self)
        ensures
            final(self)@ == old(self)@.commit(),
    {
        self.before = self.after.replicate();
    }

    /// Gives the working state up for the committed one.
    pub fn revert(&mut self)
        ensures
            final(self)@ == old(self)@.revert(),
    {
        self.after = self.before.replicate();
    }

    /// Gives the working state up for the initial one.
    pub fn reset_after_to_init(&mut self)
        ensures
            final(self)@ == old(self)@.reset(),
    {
        self.after = self.init.replicate();
    }

    /// Hands out the working state and puts the initial state in its place.
    pub fn finalize(&mut self) -> (state: S)
        ensures
            state@ == old(self)@.result(),
            final(self)@ == old(self)@.reset(),
    {
        let mut state = self.init.replicate();
        std::mem::swap(&mut self.after, &mut state);
        state
    }
}

impl<S: Replicate + PaneFactory> PaneFactory for Snapshot<S> {
    open spec fn pane(v: SnapshotView<S::V>, width: u16, height: u16) -> PaneView<StyledRow> {
        S::pane(v.after, width, height)
    }

    /// Draws the working state.
    fn create_pane(&self, width: u16, height: u16) -> (pane: Pane<StyledGraphemes>) {
        self.after.create_pane(width, height)
    }
}

} // verus!
