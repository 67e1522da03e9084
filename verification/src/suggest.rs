//! Candidates for completing what has been typed, found by their prefix.
use radix_trie::{Trie, TrieCommon};
use vstd::prelude::*;

verus! {

/// `radix_trie::Trie`, of which nothing is known but what the functions
/// below say.
#[verifier::external_type_specification]
#[verifier::external_body]
#[verifier::reject_recursive_types(K)]
#[verifier::reject_recursive_types(V)]
pub struct ExTrie<K, V>(radix_trie::Trie<K, V>);

/// The keys that a trie holds.
pub uninterp spec fn trie_keys(trie: radix_trie::Trie<String, usize>) -> Set<Seq<char>>;

/// Those of `keys` that begin with `query`.
pub open spec fn beginning_with(keys: Set<Seq<char>>, query: Seq<char>) -> Set<Seq<char>> {
    Set::new(|key: Seq<char>| keys.contains(key) && query.is_prefix_of(key))
}

/// Calls `radix_trie::Trie::new`, which gives a trie that holds no key.
#[verifier::external_body]
fn trie_new() -> (trie: Trie<String, usize>)
    ensures
        trie_keys(trie) == Set::<Seq<char>>::empty(),
{
    Trie::new()
}

/// Calls `radix_trie::Trie::insert`, after which the trie holds `key` beside
/// the keys it held before.
#[verifier::external_body]
fn trie_insert(trie: &mut Trie<String, usize>, key: String, value: usize)
    ensures
        trie_keys(*final(trie)) == trie_keys(*old(trie)).insert(key@),
{
    trie.insert(key, value);
}

/// Calls `radix_trie::Trie::get_raw_descendant` and hands out the keys of
/// the subtrie it finds, as `radix_trie::TrieCommon::keys` goes through
/// them.
///
/// The trie compares keys by their bytes, and a string begins with another
/// exactly where its bytes begin with the bytes of the other. So the
/// subtrie holds the keys of the trie that begin with `query`, each once;
/// the order in which they come is not stated. There is no subtrie only
/// where no key begins with `query`, and then `query` is not empty: for the
/// empty query the subtrie is the whole trie.
#[verifier::external_body]
fn trie_descendants(trie: &Trie<String, usize>, query: &str) -> (keys: Option<Vec<String>>)
    ensures
        match keys {
            Some(keys) => keys.deep_view().no_duplicates() && keys.deep_view().to_set()
                == beginning_with(trie_keys(*trie), query@),
            None => query@.len() > 0 && beginning_with(trie_keys(*trie), query@)
                == Set::<Seq<char>>::empty(),
        },
{
    trie.get_raw_descendant(query).map(|subtrie| subtrie.keys().cloned().collect())
}

/// The candidates for completion.
pub struct Suggest {
    trie: Trie<String, usize>,
}

impl View for Suggest {
    type V = Set<Seq<char>>;

    closed spec fn view(&self) -> Set<Seq<char>> {
        trie_keys(self.trie)
    }
}

impl Suggest {
    /// No candidate.
    pub fn new() -> (s: Self)
        ensures
            s@ == Set::<Seq<char>>::empty(),
    {
        Suggest { trie: trie_new() }
    }

    /// Adds `item` to the candidates.
    pub fn insert(&mut self, item: &str)
        ensures
            final(self)@ == old(self)@.insert(item@),
    {
        // Only the keys are of use: every candidate is stored with the same
        // value.
        trie_insert(&mut self.trie, String::from_str(item), 1);
    }

    /// The candidates `items`.
    pub fn from_items(items: &Vec<String>) -> (s: Self)
        ensures
            s@ == items.deep_view().to_set(),
    {
        let mut s = Suggest::new();
        let n = items.len();
        let mut i: usize = 0;
        while i < n
            invariant
                n == items@.len(),
                i <= n,
                s@ == items.deep_view().take(i as int).to_set(),
            decreases n - i,
        {
            let ghost before = items.deep_view().take(i as int);
            s.insert(items[i].as_str());
            proof {
                assert(items.deep_view()[i as int] == items@[i as int]@);
                assert(items.deep_view().take(i + 1) =~= before.push(items@[i as int]@));
                assert forall|x: Seq<char>| #[trigger]
                    before.push(items@[i as int]@).to_set().contains(x) == before.to_set().insert(
                        items@[i as int]@,
                    ).contains(x) by {
                    if before.contains(x) {
                        let j = choose|j: int| 0 <= j < before.len() && before[j] == x;
                        assert(before.push(items@[i as int]@)[j] == x);
                    }
                    if x == items@[i as int]@ {
                        assert(before.push(x)[before.len() as int] == x);
                    }
                }
                assert(before.push(items@[i as int]@).to_set() =~= before.to_set().insert(
                    items@[i as int]@,
                ));
            }
            i = i + 1;
        }
        assert(items.deep_view().take(n as int) =~= items.deep_view());
        s
    }

    /// The candidates that begin with `query`, each once, or `None` where
    /// there is none.
    pub fn prefix_search(&self, query: &str) -> (found: Option<Vec<String>>)
        ensures
            match found {
                Some(found) => {
                    &&& found@.len() > 0
                    &&& found.deep_view().no_duplicates()
                    &&& found.deep_view().to_set() == beginning_with(self@, query@)
                },
                None => beginning_with(self@, query@) == Set::<Seq<char>>::empty(),
            },
    {
        match trie_descendants(&self.trie, query) {
            Some(keys) => {
                if keys.len() > 0 {
                    Some(keys)
                } else {
                    assert(keys.deep_view().to_set() =~= Set::<Seq<char>>::empty());
                    None
                }
            },
            None => None,
        }
    }
}

} // verus!
