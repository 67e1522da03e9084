//! A table from keys to what they do.
use vstd::prelude::*;
use crate::event::KeyEvent;

verus! {

/// What the latest binding of `key` in `table` is, if there is one.
pub open spec fn bound_to<A>(table: Seq<(KeyEvent, A)>, key: KeyEvent) -> Option<A>
    decreases table.len(),
{
    if table.len() == 0 {
        None
    } else if table.last().0 == key {
        Some(table.last().1)
    } else {
        bound_to(table.drop_last(), key)
    }
}

/// A key bound last is bound to what it was bound to then, and the other
/// keys are bound as before.
pub proof fn lemma_latest_binding_wins<A>(table: Seq<(KeyEvent, A)>, key: KeyEvent, action: A)
    ensures
        bound_to(table.push((key, action)), key) == Some(action),
        forall|other: KeyEvent|
            other != key ==> #[trigger] bound_to(table.push((key, action)), other) == bound_to(
                table,
                other,
            ),
{
    assert(table.push((key, action)).drop_last() =~= table);
}

/// The bindings of keys to actions, in the order in which they were made.
pub struct KeyBind<A: Copy> {
    bindings: Vec<(KeyEvent, A)>,
}

impl<A: Copy> View for KeyBind<A> {
    type V = Seq<(KeyEvent, A)>;

    closed spec fn view(&self) -> Seq<(KeyEvent, A)> {
        self.bindings@
    }
}

impl<A: Copy> KeyBind<A> {
    /// No key bound.
    pub fn new() -> (k: Self)
        ensures
            k@ == Seq::<(KeyEvent, A)>::empty(),
    {
        KeyBind { bindings: Vec::new() }
    }

    /// Binds `key` to `action`, in place of what it was bound to.
    pub fn assign(&mut self, key: KeyEvent, action: A)
        ensures
            final(self)@ == old(self)@.push((key, action)),
    {
        self.bindings.push((key, action));
    }

    /// What `key` is bound to, if it is bound.
    pub fn lookup(&self, key: &KeyEvent) -> (action: Option<A>)
        ensures
            action == bound_to(self@, *key),
    {
        let mut i: usize = self.bindings.len();
        assert(self@.take(i as int) =~= self@);
        while i > 0
            invariant
                i <= self.bindings@.len(),
                bound_to(self@, *key) == bound_to(self@.take(i as int), *key),
            decreases i,
        {
            i = i - 1;
            proof {
                assert(self@.take(i + 1).drop_last() =~= self@.take(i as int));
                assert(self@.take(i + 1).last() == self@[i as int]);
            }
            if self.bindings[i].0 == *key {
                return Some(self.bindings[i].1);
            }
        }
        None
    }
}

} // verus!
