//! A list of items of which any number can be picked.
use std::collections::HashSet;
use vstd::prelude::*;
use crate::error::Error;
use crate::replicate::Replicate;
use crate::selector::{Selector, SelectorView};

pub mod state;

verus! {

broadcast use vstd::std_specs::hash::group_hash_axioms;

/// The view of a checkbox: the items with the position of the current one,
/// and the positions of the picked ones.
pub struct CheckboxView {
    pub selector: SelectorView,
    pub picked: Set<usize>,
}

impl CheckboxView {
    /// The position is that of an item, and so is every picked one.
    pub open spec fn wf(self) -> bool {
        &&& self.selector.wf()
        &&& forall|i: usize| self.picked.contains(i) ==> i < self.selector.items.len()
    }

    /// Those of the first `upto` items that are picked, in the order of the
    /// items.
    pub open spec fn chosen(self, upto: int) -> Seq<Seq<char>>
        decreases upto,
    {
        if upto <= 0 {
            Seq::empty()
        } else if self.picked.contains((upto - 1) as usize) {
            self.chosen(upto - 1).push(self.selector.items[upto - 1])
        } else {
            self.chosen(upto - 1)
        }
    }

    /// What a session on the checkbox results in: the picked items, in the
    /// order of the items.
    pub open spec fn get(self) -> Seq<Seq<char>> {
        self.chosen(self.selector.items.len() as int)
    }

    /// The current item picked if it was not, and not picked if it was.
    pub open spec fn toggle(self) -> CheckboxView {
        let at = self.selector.position as usize;
        CheckboxView {
            picked: if self.picked.contains(at) {
                self.picked.remove(at)
            } else {
                self.picked.insert(at)
            },
            ..self
        }
    }
}

/// Toggling twice in a row changes nothing.
pub proof fn lemma_toggle_twice(c: CheckboxView)
    ensures
        c.toggle().toggle() == c,
{
    assert(c.toggle().toggle().picked =~= c.picked);
}

/// A list of items with the position of the current one and the positions
/// of those that are picked.
pub struct Checkbox {
    selector: Selector,
    picked: HashSet<usize>,
}

impl View for Checkbox {
    type V = CheckboxView;

    closed spec fn view(&self) -> CheckboxView {
        CheckboxView { selector: self.selector@, picked: self.picked@ }
    }
}

impl Clone for Checkbox {
    fn clone(&self) -> (r: Self)
        ensures
            r@ == self@,
    {
        proof {
            use_type_invariant(self);
        }
        // Every picked position is that of an item, so going through the
        // positions of the items finds them all.
        let n = self.selector.items().len();
        let mut picked: HashSet<usize> = HashSet::new();
        let mut i: usize = 0;
        assert(self@.wf() && self@.picked == self.picked@);
        while i < n
            invariant
                i <= n,
                forall|j: usize| self.picked@.contains(j) ==> j < n,
                forall|j: usize| picked@.contains(j) <==> j < i && self.picked@.contains(j),
            decreases n - i,
        {
            if self.picked.contains(&i) {
                picked.insert(i);
            }
            i = i + 1;
        }
        assert(picked@ =~= self.picked@);
        Checkbox { selector: self.selector.clone(), picked }
    }
}

impl Replicate for Checkbox {
    fn replicate(&self) -> (r: Self) {
        self.clone()
    }
}

impl Checkbox {
    /// What holds of every checkbox: see [`CheckboxView::wf`].
    #[verifier::type_invariant]
    pub open spec fn picked_are_items(self) -> bool {
        self@.wf()
    }

    /// A checkbox over `items` with the first of them current and none
    /// picked, or [`Error::NoItems`] where there is none.
    pub fn new(items: Vec<String>) -> (r: Result<Self, Error>)
        ensures
            items@.len() == 0 <==> r == Err::<Self, Error>(Error::NoItems),
            items@.len() > 0 ==> r is Ok && r->Ok_0@ == (CheckboxView {
                selector: SelectorView { items: items.deep_view(), position: 0 },
                picked: Set::empty(),
            }),
    {
        match Selector::new(items) {
            Ok(selector) => Ok(Checkbox { selector, picked: HashSet::new() }),
            Err(e) => Err(e),
        }
    }

    /// The items.
    pub fn items(&self) -> (items: &Vec<String>)
        ensures
            items.deep_view() == self@.selector.items,
            self@.selector.wf(),
    {
        self.selector.items()
    }

    /// The position of the current item.
    pub fn position(&self) -> (p: usize)
        ensures
            p == self@.selector.position,
            self@.selector.wf(),
    {
        self.selector.position()
    }

    /// The positions of the picked items.
    pub fn picked_indexes(&self) -> (picked: &HashSet<usize>)
        ensures
            picked@ == self@.picked,
            self@.wf(),
    {
        proof {
            use_type_invariant(self);
        }
        &self.picked
    }

    /// The picked items, in the order of the items.
    pub fn get(&self) -> (items: Vec<String>)
        ensures
            items.deep_view() == self@.get(),
    {
        let all = self.selector.items();
        let n = all.len();
        let mut items: Vec<String> = Vec::new();
        let mut i: usize = 0;
        while i < n
            invariant
                n == all@.len(),
                i <= n,
                all.deep_view() == self@.selector.items,
                self.picked@ == self@.picked,
                items.deep_view() == self@.chosen(i as int),
            decreases n - i,
        {
            if self.picked.contains(&i) {
                let ghost before = items.deep_view();
                items.push(all[i].clone());
                assert(all.deep_view()[i as int] == all@[i as int]@);
                assert(items.deep_view() =~= before.push(all@[i as int]@));
            }
            i = i + 1;
        }
        items
    }

    /// Picks the current item, or gives it up where it was picked.
    pub fn toggle(&mut self)
        ensures
            final(self)@ == old(self)@.toggle(),
    {
        proof {
            use_type_invariant(&*self);
        }
        // The set is taken out while it changes, so that what the checkbox
        // holds is at no time more than the items.
        let at = self.selector.position();
        let mut picked: HashSet<usize> = HashSet::new();
        assert(self@.wf() && self@.picked == self.picked@);
        std::mem::swap(&mut self.picked, &mut picked);
        if picked.contains(&at) {
            picked.remove(&at);
        } else {
            picked.insert(at);
        }
        assert(forall|i: usize| picked@.contains(i) ==> i == at || old(self).picked@.contains(i));
        std::mem::swap(&mut self.picked, &mut picked);
    }

    /// Steps towards the head and says whether it could. What is picked stays.
    pub fn prev(&mut self) -> (moved: bool)
        ensures
            moved == old(self)@.selector.can_prev(),
            final(self)@ == (CheckboxView { selector: old(self)@.selector.prev(), ..old(self)@ }),
    {
        proof {
            use_type_invariant(&*self);
        }
        self.selector.prev()
    }

    /// Steps towards the tail and says whether it could. What is picked stays.
    pub fn next(&mut self) -> (moved: bool)
        ensures
            moved == old(self)@.selector.can_next(),
            final(self)@ == (CheckboxView { selector: old(self)@.selector.next(), ..old(self)@ }),
    {
        proof {
            use_type_invariant(&*self);
        }
        self.selector.next()
    }

    /// Makes the first item current. What is picked stays.
    pub fn to_head(&mut self)
        ensures
            final(self)@ == (CheckboxView {
                selector: old(self)@.selector.to_head(),
                ..old(self)@
            }),
    {
        proof {
            use_type_invariant(&*self);
        }
        self.selector.to_head()
    }

    /// Makes the last item current. What is picked stays.
    pub fn to_tail(&mut self)
        ensures
            final(self)@ == (CheckboxView {
                selector: old(self)@.selector.to_tail(),
                ..old(self)@
            }),
    {
        proof {
            use_type_invariant(&*self);
        }
        self.selector.to_tail()
    }
}

} // verus!
