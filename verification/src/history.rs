//! The inputs of earlier sessions, to be gone through with the arrow keys.
use vstd::prelude::*;
use crate::replicate::Replicate;

verus! {

/// The view of a history: the entries from the oldest to the newest, the
/// last of them being the empty line of the running session, and the
/// position of the entry that is shown.
pub struct HistoryView {
    pub entries: Seq<Seq<char>>,
    pub position: nat,
}

impl HistoryView {
    /// The history ends with the empty line, and an entry is shown.
    pub open spec fn wf(self) -> bool {
        &&& self.entries.len() > 0
        &&& self.entries.last() == Seq::<char>::empty()
        &&& self.position < self.entries.len()
    }

    /// The history of a first session.
    pub open spec fn fresh() -> HistoryView {
        HistoryView { entries: seq![Seq::<char>::empty()], position: 0 }
    }

    /// The history with `item` as its newest entry, unless it is an entry
    /// already, and the empty line shown.
    pub open spec fn insert(self, item: Seq<char>) -> HistoryView {
        let entries = if self.entries.contains(item) {
            self.entries
        } else {
            self.entries.insert(self.entries.len() - 1, item)
        };
        HistoryView { entries, position: (entries.len() - 1) as nat }
    }

    /// Whether an older entry than the one shown exists.
    pub open spec fn can_backward(self) -> bool {
        self.position > 0
    }

    /// Whether a newer entry than the one shown exists.
    pub open spec fn can_forward(self) -> bool {
        self.position + 1 < self.entries.len()
    }

    /// The next older entry shown, where there is one.
    pub open spec fn backward(self) -> HistoryView {
        if self.can_backward() {
            HistoryView { position: (self.position - 1) as nat, ..self }
        } else {
            self
        }
    }

    /// The next newer entry shown, where there is one.
    pub open spec fn forward(self) -> HistoryView {
        if self.can_forward() {
            HistoryView { position: self.position + 1, ..self }
        } else {
            self
        }
    }

    /// The entry that is shown.
    pub open spec fn get(self) -> Seq<char> {
        self.entries[self.position as int]
    }
}

/// Every operation on a history keeps it ending with the empty line, with
/// an entry shown.
pub proof fn lemma_history_stays_wf(h: HistoryView, item: Seq<char>)
    requires
        h.wf(),
    ensures
        h.insert(item).wf(),
        h.backward().wf(),
        h.forward().wf(),
        HistoryView::fresh().wf(),
{
}

/// The inputs of earlier sessions and the position of the one that is
/// shown.
pub struct History {
    entries: Vec<String>,
    position: usize,
}

impl View for History {
    type V = HistoryView;

    closed spec fn view(&self) -> HistoryView {
        HistoryView { entries: self.entries.deep_view(), position: self.position as nat }
    }
}

impl Clone for History {
    fn clone(&self) -> (r: Self)
        ensures
            r@ == self@,
    {
        proof {
            use_type_invariant(self);
        }
        let entries = self.entries.clone();
        assert(entries.deep_view() =~= self.entries.deep_view());
        History { entries, position: self.position }
    }
}

impl Replicate for History {
    fn replicate(&self) -> (r: Self) {
        self.clone()
    }
}

impl Default for History {
    fn default() -> (h: Self)
        ensures
            h@ == HistoryView::fresh(),
    {
        let mut entries: Vec<String> = Vec::new();
        entries.push(String::new());
        assert(entries.deep_view() =~= seq![Seq::<char>::empty()]);
        History { entries, position: 0 }
    }
}

impl History {
    /// What holds of every history: see [`HistoryView::wf`].
    #[verifier::type_invariant]
    pub open spec fn ends_with_empty_line(self) -> bool {
        self@.wf()
    }

    /// Whether `item` is an entry.
    pub fn holds(&self, item: &String) -> (b: bool)
        ensures
            b == self@.entries.contains(item@),
    {
        let n = self.entries.len();
        let mut i: usize = 0;
        while i < n
            invariant
                n == self.entries@.len(),
                i <= n,
                forall|j: int| 0 <= j < i ==> self.entries.deep_view()[j] != item@,
            decreases n - i,
        {
            assert(self.entries.deep_view()[i as int] == self.entries@[i as int]@);
            if self.entries[i] == *item {
                return true;
            }
            i = i + 1;
        }
        false
    }

    /// Makes `item` the newest entry, unless it is an entry already, and
    /// shows the empty line.
    pub fn insert(&mut self, item: String)
        ensures
            final(self)@ == old(self)@.insert(item@),
            final(self)@.wf(),
    {
        proof {
            use_type_invariant(&*self);
        }
        // The entries are taken out while they grow; the empty line alone
        // stands in for them, so that an entry is shown at all times.
        let known = self.holds(&item);
        let mut entries: Vec<String> = Vec::new();
        entries.push(String::new());
        assert(entries.deep_view() =~= seq![Seq::<char>::empty()]);
        self.position = 0;
        std::mem::swap(&mut self.entries, &mut entries);
        if !known {
            let ghost before = entries.deep_view();
            let at = entries.len() - 1;
            entries.insert(at, item);
            assert(entries.deep_view() =~= before.insert(at as int, item@));
        }
        let last = entries.len() - 1;
        std::mem::swap(&mut self.entries, &mut entries);
        self.position = last;
    }

    /// The entry that is shown.
    pub fn get(&self) -> (item: &String)
        ensures
            item@ == self@.get(),
            self@.wf(),
    {
        proof {
            use_type_invariant(self);
            assert(self.entries.deep_view()[self.position as int] == self.entries@[self.position as int]@);
        }
        &self.entries[self.position]
    }

    /// Shows the next older entry and says whether there was one.
    pub fn backward(&mut self) -> (moved: bool)
        ensures
            moved == old(self)@.can_backward(),
            final(self)@ == old(self)@.backward(),
            final(self)@.wf(),
    {
        proof {
            use_type_invariant(&*self);
        }
        if self.position > 0 {
            self.position = self.position - 1;
            true
        } else {
            false
        }
    }

    /// Shows the next newer entry and says whether there was one.
    pub fn forward(&mut self) -> (moved: bool)
        ensures
            moved == old(self)@.can_forward(),
            final(self)@ == old(self)@.forward(),
            final(self)@.wf(),
    {
        proof {
            use_type_invariant(&*self);
        }
        if self.position < self.entries.len() - 1 {
            self.position = self.position + 1;
            true
        } else {
            false
        }
    }
}

} // verus!
