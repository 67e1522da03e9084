//! A table of named keymaps of which exactly one is active.
use vstd::prelude::*;

verus! {

/// The view of a switcher: the keymap registered under each name, and the
/// name of the active one.
pub struct SwitcherView<K> {
    pub keymaps: Map<Seq<char>, K>,
    pub active: Seq<char>,
}

impl<K> SwitcherView<K> {
    /// The active name is registered.
    pub open spec fn wf(self) -> bool {
        self.keymaps.contains_key(self.active)
    }

    /// The switcher with `keymap` registered under `name`, in place of what
    /// was registered under that name before.
    pub open spec fn register(self, name: Seq<char>, keymap: K) -> SwitcherView<K> {
        SwitcherView { keymaps: self.keymaps.insert(name, keymap), ..self }
    }

    /// The switcher with `name` active, where a keymap is registered under
    /// it; the switcher as it was, where none is.
    pub open spec fn switch(self, name: Seq<char>) -> SwitcherView<K> {
        if self.keymaps.contains_key(name) {
            SwitcherView { active: name, ..self }
        } else {
            self
        }
    }

    /// The active keymap.
    pub open spec fn get(self) -> K {
        self.keymaps[self.active]
    }
}

/// Registering and switching keep a keymap active, and a switch to a name
/// that is not registered changes nothing.
pub proof fn lemma_one_keymap_is_active<K>(s: SwitcherView<K>, name: Seq<char>, keymap: K)
    requires
        s.wf(),
    ensures
        s.register(name, keymap).wf(),
        s.switch(name).wf(),
        !s.keymaps.contains_key(name) ==> s.switch(name) == s,
        s.keymaps.contains_key(name) ==> s.switch(name).get() == s.keymaps[name],
{
}

/// The names under which keymaps are registered, without repetition, each
/// with its keymap, and the place of the active one.
pub struct ActiveKeySwitcher<K: Copy> {
    names: Vec<String>,
    keymaps: Vec<K>,
    active: usize,
}

/// The place of `name` among `names`, if it is there.
pub open spec fn place_of(names: Seq<Seq<char>>, name: Seq<char>) -> Option<int> {
    if exists|i: int| 0 <= i < names.len() && names[i] == name {
        Some(choose|i: int| 0 <= i < names.len() && names[i] == name)
    } else {
        None
    }
}

/// The table that pairs each of `names` with the keymap at its place.
pub open spec fn table_of<K>(names: Seq<Seq<char>>, keymaps: Seq<K>) -> Map<Seq<char>, K> {
    Map::new(
        |name: Seq<char>| place_of(names, name) is Some,
        |name: Seq<char>| keymaps[place_of(names, name)->Some_0],
    )
}

impl<K: Copy> View for ActiveKeySwitcher<K> {
    type V = SwitcherView<K>;

    closed spec fn view(&self) -> SwitcherView<K> {
        SwitcherView {
            keymaps: table_of(self.names.deep_view(), self.keymaps@),
            active: self.names.deep_view()[self.active as int],
        }
    }
}

impl<K: Copy> ActiveKeySwitcher<K> {
    #[verifier::type_invariant]
    closed spec fn inv(self) -> bool {
        &&& self.names@.len() == self.keymaps@.len()
        &&& self.active < self.names@.len()
        &&& self.names.deep_view().no_duplicates()
    }

    /// A switcher with `keymap` registered under `name` and active.
    pub fn new(name: &str, keymap: K) -> (s: Self)
        ensures
            s@.keymaps == Map::<Seq<char>, K>::empty().insert(name@, keymap),
            s@.active == name@,
            s@.wf(),
    {
        let mut names: Vec<String> = Vec::new();
        names.push(String::from_str(name));
        let mut keymaps: Vec<K> = Vec::new();
        keymaps.push(keymap);
        proof {
            assert(names.deep_view() =~= Seq::<Seq<char>>::empty().push(name@));
            assert(keymaps@ =~= Seq::<K>::empty().push(keymap));
            lemma_table_push(Seq::<Seq<char>>::empty(), Seq::<K>::empty(), name@, keymap);
            assert(table_of(Seq::<Seq<char>>::empty(), Seq::<K>::empty()) =~= Map::<
                Seq<char>,
                K,
            >::empty());
        }
        ActiveKeySwitcher { names, keymaps, active: 0 }
    }

    /// The place at which `name` is registered, if it is.
    fn find(&self, name: &str) -> (at: Option<usize>)
        ensures
            match at {
                Some(i) => i < self.names@.len() && self.names.deep_view()[i as int] == name@,
                None => !self.names.deep_view().contains(name@),
            },
    {
        let wanted = String::from_str(name);
        let n = self.names.len();
        let mut i: usize = 0;
        while i < n
            invariant
                n == self.names@.len(),
                i <= n,
                wanted@ == name@,
                forall|j: int| 0 <= j < i ==> self.names.deep_view()[j] != name@,
            decreases n - i,
        {
            assert(self.names.deep_view()[i as int] == self.names@[i as int]@);
            if self.names[i] == wanted {
                return Some(i);
            }
            i = i + 1;
        }
        None
    }

    /// Registers `keymap` under `name`, in place of what was registered
    /// under that name before. The active name stays.
    pub fn register(self, name: &str, keymap: K) -> (s: Self)
        ensures
            s@ == self@.register(name@, keymap),
            s@.wf(),
    {
        proof {
            use_type_invariant(&self);
        }
        let at = self.find(name);
        let ghost old_names = self.names.deep_view();
        let ghost old_keymaps = self.keymaps@;
        let ActiveKeySwitcher { names, keymaps, active } = self;
        let mut names = names;
        let mut keymaps = keymaps;
        match at {
            Some(i) => {
                keymaps.set(i, keymap);
                proof {
                    lemma_table_update(old_names, old_keymaps, i as int, keymap);
                }
            },
            None => {
                names.push(String::from_str(name));
                keymaps.push(keymap);
                proof {
                    assert(names.deep_view() =~= old_names.push(name@));
                    lemma_table_push(old_names, old_keymaps, name@, keymap);
                }
            },
        }
        proof {
            lemma_table_holds(names.deep_view(), keymaps@, active as int);
        }
        ActiveKeySwitcher { names, keymaps, active }
    }

    /// Makes the keymap registered under `name` the active one. Where none
    /// is registered under it, nothing changes.
    pub fn switch(&mut self, name: &str)
        ensures
            final(self)@ == old(self)@.switch(name@),
            final(self)@.wf(),
    {
        proof {
            use_type_invariant(&*self);
            lemma_table_holds(self.names.deep_view(), self.keymaps@, self.active as int);
        }
        match self.find(name) {
            Some(i) => {
                proof {
                    lemma_table_holds(self.names.deep_view(), self.keymaps@, i as int);
                }
                self.active = i;
            },
            None => {
                proof {
                    lemma_table_lacks(self.names.deep_view(), self.keymaps@, name@);
                }
            },
        }
    }

    /// The active keymap.
    pub fn get(&self) -> (keymap: K)
        ensures
            keymap == self@.get(),
            self@.wf(),
    {
        proof {
            use_type_invariant(self);
            lemma_table_holds(self.names.deep_view(), self.keymaps@, self.active as int);
        }
        self.keymaps[self.active]
    }

    /// The name of the active keymap.
    pub fn active_key_name(&self) -> (name: &String)
        ensures
            name@ == self@.active,
    {
        proof {
            use_type_invariant(self);
            assert(self.names.deep_view()[self.active as int] == self.names@[self.active as int]@);
        }
        &self.names[self.active]
    }
}

/// In a table made of names without repetition, the name at a place is
/// paired with the keymap at that place.
proof fn lemma_table_holds<K>(names: Seq<Seq<char>>, keymaps: Seq<K>, i: int)
    requires
        names.no_duplicates(),
        names.len() == keymaps.len(),
        0 <= i < names.len(),
    ensures
        table_of(names, keymaps).contains_key(names[i]),
        table_of(names, keymaps)[names[i]] == keymaps[i],
{
    assert(place_of(names, names[i]) is Some);
}

/// A table holds no name that is not among those it is made of.
proof fn lemma_table_lacks<K>(names: Seq<Seq<char>>, keymaps: Seq<K>, name: Seq<char>)
    requires
        !names.contains(name),
    ensures
        !table_of(names, keymaps).contains_key(name),
{
}

/// Appending a new name with its keymap inserts the pair into the table.
proof fn lemma_table_push<K>(names: Seq<Seq<char>>, keymaps: Seq<K>, name: Seq<char>, keymap: K)
    requires
        names.no_duplicates(),
        names.len() == keymaps.len(),
        !names.contains(name),
    ensures
        names.push(name).no_duplicates(),
        table_of(names.push(name), keymaps.push(keymap)) == table_of(names, keymaps).insert(
            name,
            keymap,
        ),
{
    let grown = names.push(name);
    let table = table_of(grown, keymaps.push(keymap));
    let wanted = table_of(names, keymaps).insert(name, keymap);
    assert forall|n: Seq<char>| table.contains_key(n) == wanted.contains_key(n) by {
        if place_of(names, n) is Some {
            let k = place_of(names, n)->Some_0;
            assert(grown[k] == n);
        }
        if n == name {
            assert(grown[names.len() as int] == n);
        }
        if place_of(grown, n) is Some {
            let k = place_of(grown, n)->Some_0;
            if k < names.len() {
                assert(names[k] == n);
            }
        }
    }
    assert forall|n: Seq<char>| table.contains_key(n) implies table[n] == wanted[n] by {
        let k = place_of(grown, n)->Some_0;
        if n == name {
            assert(grown[names.len() as int] == n);
        } else {
            assert(names[k] == n);
            let k0 = place_of(names, n)->Some_0;
            assert(names[k0] == n);
        }
    }
    assert(table =~= wanted);
}

/// Replacing the keymap at a place replaces what its name is paired with.
proof fn lemma_table_update<K>(names: Seq<Seq<char>>, keymaps: Seq<K>, i: int, keymap: K)
    requires
        names.no_duplicates(),
        names.len() == keymaps.len(),
        0 <= i < names.len(),
    ensures
        table_of(names, keymaps.update(i, keymap)) == table_of(names, keymaps).insert(
            names[i],
            keymap,
        ),
{
    let table = table_of(names, keymaps.update(i, keymap));
    let wanted = table_of(names, keymaps).insert(names[i], keymap);
    assert forall|n: Seq<char>| table.contains_key(n) == wanted.contains_key(n) by {
        if n == names[i] {
            assert(place_of(names, n) is Some);
        }
    }
    assert(table =~= wanted);
}

} // verus!
