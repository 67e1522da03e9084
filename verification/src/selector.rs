//! A list of items, fixed once made, and the position of one of them.
use vstd::prelude::*;
use crate::error::Error;
use crate::replicate::Replicate;

verus! {

/// The view of a selector: its items and the position of the chosen one.
pub struct SelectorView {
    pub items: Seq<Seq<char>>,
    pub position: nat,
}

impl SelectorView {
    /// There is an item, and the position is that of one of them.
    pub open spec fn wf(self) -> bool {
        self.position < self.items.len()
    }

    /// Whether a step towards the head is possible.
    pub open spec fn can_prev(self) -> bool {
        self.position > 0
    }

    /// Whether a step towards the tail is possible.
    pub open spec fn can_next(self) -> bool {
        self.position + 1 < self.items.len()
    }

    /// One step towards the head, where possible.
    pub open spec fn prev(self) -> SelectorView {
        if self.can_prev() {
            SelectorView { position: (self.position - 1) as nat, ..self }
        } else {
            self
        }
    }

    /// One step towards the tail, where possible.
    pub open spec fn next(self) -> SelectorView {
        if self.can_next() {
            SelectorView { position: self.position + 1, ..self }
        } else {
            self
        }
    }

    /// The first item chosen.
    pub open spec fn to_head(self) -> SelectorView {
        SelectorView { position: 0, ..self }
    }

    /// The last item chosen.
    pub open spec fn to_tail(self) -> SelectorView {
        SelectorView { position: (self.items.len() - 1) as nat, ..self }
    }

    /// One step towards the head, or from the head to the tail.
    pub open spec fn cyclic_prev(self) -> SelectorView {
        if self.can_prev() {
            self.prev()
        } else {
            self.to_tail()
        }
    }

    /// One step towards the tail, or from the tail to the head.
    pub open spec fn cyclic_next(self) -> SelectorView {
        if self.can_next() {
            self.next()
        } else {
            self.to_head()
        }
    }

    /// `k` cyclic steps towards the head.
    pub open spec fn up(self, k: nat) -> SelectorView
        decreases k,
    {
        if k == 0 {
            self
        } else {
            self.up((k - 1) as nat).cyclic_prev()
        }
    }

    /// Whether fewer cyclic steps towards the head than there are items lead
    /// to position `p`.
    pub open spec fn up_visits(self, p: nat) -> bool {
        exists|k: nat| k < self.items.len() && (#[trigger] self.up(k)).position == p
    }

    /// `k` cyclic steps towards the tail.
    pub open spec fn down(self, k: nat) -> SelectorView
        decreases k,
    {
        if k == 0 {
            self
        } else {
            self.down((k - 1) as nat).cyclic_next()
        }
    }
}

/// Where `k` cyclic steps towards the head lead, for up to as many steps as
/// there are items: down to the head, then on from the tail.
pub proof fn lemma_up_position(s: SelectorView, k: nat)
    requires
        s.wf(),
        k <= s.items.len(),
    ensures
        s.up(k).wf(),
        s.up(k).items == s.items,
        s.up(k).position == if k <= s.position {
            s.position - k
        } else {
            s.position + s.items.len() - k
        },
    decreases k,
{
    if k > 0 {
        lemma_up_position(s, (k - 1) as nat);
    }
}

/// Where `k` cyclic steps towards the tail lead, for up to as many steps as
/// there are items: up to the tail, then on from the head.
pub proof fn lemma_down_position(s: SelectorView, k: nat)
    requires
        s.wf(),
        k <= s.items.len(),
    ensures
        s.down(k).wf(),
        s.down(k).items == s.items,
        s.down(k).position == if s.position + k < s.items.len() {
            (s.position + k) as int
        } else {
            s.position + k - s.items.len()
        },
    decreases k,
{
    if k > 0 {
        lemma_down_position(s, (k - 1) as nat);
    }
}

/// Stepping towards the head with a wrap to the tail visits every position
/// exactly once before it comes back to where it began: the positions after
/// fewer steps than there are items all differ, every position is among
/// them, and as many steps as there are items lead back to the start.
pub proof fn lemma_up_visits_every_position_once(s: SelectorView)
    requires
        s.wf(),
    ensures
        forall|i: nat, j: nat|
            i < j < s.items.len() ==> (#[trigger] s.up(i)).position != (#[trigger] s.up(
                j,
            )).position,
        forall|p: nat| p < s.items.len() ==> #[trigger] s.up_visits(p),
        s.up(s.items.len()) == s,
{
    let n = s.items.len();
    assert forall|i: nat, j: nat| i < j < n implies (#[trigger] s.up(i)).position != (
    #[trigger] s.up(j)).position by {
        lemma_up_position(s, i);
        lemma_up_position(s, j);
    }
    assert forall|p: nat| p < n implies #[trigger] s.up_visits(p) by {
        let k: nat = if p <= s.position {
            (s.position - p) as nat
        } else {
            (s.position + n - p) as nat
        };
        lemma_up_position(s, k);
        assert(k < n && s.up(k).position == p);
    }
    lemma_up_position(s, n);
}

/// At the head a step towards the head is not possible and changes nothing.
pub proof fn lemma_prev_at_head(s: SelectorView)
    requires
        s.position == 0,
    ensures
        !s.can_prev(),
        s.prev() == s,
{
}

/// Items and the position of the chosen one.
pub struct Selector {
    items: Vec<String>,
    position: usize,
}

impl View for Selector {
    type V = SelectorView;

    closed spec fn view(&self) -> SelectorView {
        SelectorView { items: self.items.deep_view(), position: self.position as nat }
    }
}

impl Clone for Selector {
    fn clone(&self) -> (r: Self)
        ensures
            r@ == self@,
    {
        proof {
            use_type_invariant(self);
        }
        let items = self.items.clone();
        assert(items.deep_view() =~= self.items.deep_view());
        Selector { items, position: self.position }
    }
}

impl Replicate for Selector {
    fn replicate(&self) -> (r: Self) {
        self.clone()
    }
}

impl Selector {
    /// What holds of every selector: see [`SelectorView::wf`].
    #[verifier::type_invariant]
    pub open spec fn position_is_of_an_item(self) -> bool {
        self@.wf()
    }

    /// A selector over `items` that chooses the first of them, or
    /// [`Error::NoItems`] where there is none.
    pub fn new(items: Vec<String>) -> (r: Result<Self, Error>)
        ensures
            items@.len() == 0 <==> r == Err::<Self, Error>(Error::NoItems),
            items@.len() > 0 ==> r is Ok && r->Ok_0@ == (SelectorView {
                items: items.deep_view(),
                position: 0,
            }),
    {
        if items.len() == 0 {
            Err(Error::NoItems)
        } else {
            Ok(Selector { items, position: 0 })
        }
    }

    /// The items.
    pub fn items(&self) -> (items: &Vec<String>)
        ensures
            items.deep_view() == self@.items,
            self@.wf(),
    {
        proof {
            use_type_invariant(self);
        }
        &self.items
    }

    /// The position of the chosen item.
    pub fn position(&self) -> (p: usize)
        ensures
            p == self@.position,
            self@.wf(),
    {
        proof {
            use_type_invariant(self);
        }
        self.position
    }

    /// The chosen item.
    pub fn get(&self) -> (item: &String)
        ensures
            self@.wf(),
            item@ == self@.items[self@.position as int],
    {
        proof {
            use_type_invariant(self);
        }
        &self.items[self.position]
    }

    /// Steps towards the head and says whether it could.
    pub fn prev(&mut self) -> (moved: bool)
        ensures
            moved == old(self)@.can_prev(),
            final(self)@ == old(self)@.prev(),
            final(self)@.wf(),
        no_unwind
    {
        proof {
            use_type_invariant(&*self);
        }
        if self.position > 0 {
            self.position = self.position - 1;
            true
        } else {
            false
        }
    }

    /// Steps towards the tail and says whether it could.
    pub fn next(&mut self) -> (moved: bool)
        ensures
            moved == old(self)@.can_next(),
            final(self)@ == old(self)@.next(),
            final(self)@.wf(),
        no_unwind
    {
        proof {
            use_type_invariant(&*self);
        }
        if self.position < self.items.len() - 1 {
            self.position = self.position + 1;
            true
        } else {
            false
        }
    }

    /// Chooses the first item.
    pub fn to_head(&mut self)
        ensures
            final(self)@ == old(self)@.to_head(),
            final(self)@.wf(),
        no_unwind
    {
        proof {
            use_type_invariant(&*self);
        }
        self.position = 0;
    }

    /// Chooses the last item.
    pub fn to_tail(&mut self)
        ensures
            final(self)@ == old(self)@.to_tail(),
            final(self)@.wf(),
        no_unwind
    {
        proof {
            use_type_invariant(&*self);
        }
        self.position = self.items.len() - 1;
    }
}

} // verus!
