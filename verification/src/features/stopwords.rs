//! The stopword set: a set of words that is only ever asked for membership.

use vstd::hash_set::StringHashSet;
use vstd::prelude::*;

verus! {

/// A set of stopwords. Its view is the set of the words it holds, each as a
/// sequence of characters.
pub struct StopwordSet {
    words: StringHashSet,
}

impl View for StopwordSet {
    type V = Set<Seq<char>>;

    closed spec fn view(&self) -> Set<Seq<char>> {
        self.words@
    }
}

impl StopwordSet {
    /// The empty set.
    pub fn new() -> (s: Self)
        ensures
            s@ == Set::<Seq<char>>::empty(),
    {
        StopwordSet { words: StringHashSet::new() }
    }

    /// Adds `word`, and tells whether it was new to the set.
    pub fn insert(&mut self, word: String) -> (fresh: bool)
        ensures
            final(self)@ == old(self)@.insert(word@),
            fresh == !old(self)@.contains(word@),
    {
        self.words.insert(word)
    }

    /// Tells whether `word` is in the set, character for character.
    pub fn contains(&self, word: &str) -> (b: bool)
        ensures
            b == self@.contains(word@),
    {
        self.words.contains(word)
    }

    /// The set of the given words; a word given twice is held once.
    pub fn from_words(words: &Vec<String>) -> (s: Self)
        ensures
            s@ == words.deep_view().to_set(),
    {
        let mut s = StopwordSet::new();
        let mut i: usize = 0;
        while i < words.len()
            invariant
                i <= words.len(),
                s@ =~= words.deep_view().take(i as int).to_set(),
            decreases words.len() - i,
        {
            let ghost before = words.deep_view().take(i as int);
            let word = words[i].clone();
            proof {
                assert(word@ == words.deep_view()[i as int]);
                assert(words.deep_view().take(i + 1) =~= before.push(word@));
                lemma_to_set_push(before, word@);
            }
            s.insert(word);
            i = i + 1;
        }
        proof {
            assert(words.deep_view().take(i as int) =~= words.deep_view());
        }
        s
    }
}

/// The set of a sequence with one more element is the set of the sequence
/// with that element added.
pub proof fn lemma_to_set_push(s: Seq<Seq<char>>, w: Seq<char>)
    ensures
        s.push(w).to_set() =~= s.to_set().insert(w),
{
    assert forall|x: Seq<char>| s.push(w).to_set().contains(x) <==> s.to_set().insert(
        w,
    ).contains(x) by {
        if s.push(w).contains(x) {
            let j = choose|j: int| 0 <= j < s.push(w).len() && s.push(w)[j] == x;
            if j < s.len() {
                assert(s[j] == x);
            }
        }
        if s.contains(x) {
            let j = choose|j: int| 0 <= j < s.len() && s[j] == x;
            assert(s.push(w)[j] == x);
        }
        if x == w {
            assert(s.push(w)[s.len() as int] == x);
        }
    }
}

} // verus!
