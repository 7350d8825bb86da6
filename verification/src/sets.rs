//! Sets of words that a dialect keeps under a name: reserved and unreserved
//! keywords, date parts, function names without parentheses.

use crate::text::same_text;
use vstd::prelude::*;

verus! {

/// The texts of a list of words, in order.
pub open spec fn texts(words: Seq<&'static str>) -> Seq<Seq<char>> {
    words.map_values(|w: &'static str| w@)
}

pub proof fn lemma_push_to_set(s: Seq<Seq<char>>, x: Seq<char>)
    ensures
        s.push(x).to_set() == s.to_set().insert(x),
{
    assert forall|a: Seq<char>| #[trigger] s.push(x).to_set().contains(a) == s.to_set().insert(x).contains(a) by {
        if s.push(x).contains(a) {
            let i = choose|i: int| 0 <= i < s.push(x).len() && s.push(x)[i] == a;
            if i < s.len() {
                assert(s[i] == a);
            }
        }
        if s.contains(a) {
            let i = choose|i: int| 0 <= i < s.len() && s[i] == a;
            assert(s.push(x)[i] == a);
        }
        if a == x {
            assert(s.push(x)[s.len() as int] == x);
        }
    }
    assert(s.push(x).to_set() =~= s.to_set().insert(x));
}

/// A set of words.
pub struct WordSet {
    words: Vec<&'static str>,
}

impl View for WordSet {
    type V = Set<Seq<char>>;

    closed spec fn view(&self) -> Set<Seq<char>> {
        texts(self.words@).to_set()
    }
}

impl WordSet {
    /// The empty set.
    pub fn new() -> (s: WordSet)
        ensures
            s@ == Set::<Seq<char>>::empty(),
    {
        let s = WordSet { words: Vec::new() };
        assert(s@ =~= Set::<Seq<char>>::empty());
        s
    }

    /// The set of the given words.
    pub fn from_words(words: &[&'static str]) -> (s: WordSet)
        ensures
            s@ == texts(words@).to_set(),
    {
        let mut s = WordSet::new();
        s.extend(words);
        assert(s@ =~= texts(words@).to_set());
        s
    }

    /// Whether the set holds `word`.
    pub fn contains(&self, word: &str) -> (r: bool)
        ensures
            r == self@.contains(word@),
    {
        let mut i: usize = 0;
        while i < self.words.len()
            invariant
                i <= self.words@.len(),
                forall|j: int| 0 <= j < i ==> self.words@[j]@ != word@,
            decreases self.words@.len() - i,
        {
            if same_text(self.words[i], word) {
                assert(texts(self.words@)[i as int] == word@);
                return true;
            }
            i += 1;
        }
        assert(!texts(self.words@).contains(word@)) by {
            if texts(self.words@).contains(word@) {
                let j = choose|j: int| 0 <= j < texts(self.words@).len() && texts(self.words@)[j] == word@;
                assert(self.words@[j]@ == word@);
            }
        }
        false
    }

    /// Adds `word`.
    pub fn insert(&mut self, word: &'static str)
        ensures
            final(self)@ == old(self)@.insert(word@),
    {
        if !self.contains(word) {
            let ghost before = self.words@;
            self.words.push(word);
            assert(texts(self.words@) =~= texts(before).push(word@));
            proof {
                lemma_push_to_set(texts(before), word@);
            }
        } else {
            assert(old(self)@.insert(word@) =~= old(self)@);
        }
    }

    /// Adds every word of `words`.
    pub fn extend(&mut self, words: &[&'static str])
        ensures
            final(self)@ == old(self)@.union(texts(words@).to_set()),
    {
        let mut i: usize = 0;
        while i < words.len()
            invariant
                i <= words@.len(),
                self@ == old(self)@.union(texts(words@).take(i as int).to_set()),
            decreases words@.len() - i,
        {
            let ghost before = self@;
            self.insert(words[i]);
            assert(texts(words@).take(i + 1) =~= texts(words@).take(i as int).push(words@[i as int]@));
            proof {
                lemma_push_to_set(texts(words@).take(i as int), words@[i as int]@);
            }
            assert(self@ =~= old(self)@.union(texts(words@).take(i + 1).to_set()));
            i += 1;
        }
        assert(texts(words@).take(words@.len() as int) =~= texts(words@));
    }

    /// Removes `word`, if the set holds it.
    pub fn remove(&mut self, word: &str)
        ensures
            final(self)@ == old(self)@.remove(word@),
    {
        let ghost old_words = texts(self.words@);
        let mut kept: Vec<&'static str> = Vec::new();
        let mut i: usize = 0;
        while i < self.words.len()
            invariant
                i <= self.words@.len(),
                old_words == texts(self.words@),
                texts(kept@).to_set() == old_words.take(i as int).to_set().remove(word@),
            decreases self.words@.len() - i,
        {
            let w = self.words[i];
            let ghost k0 = kept@;
            if !same_text(w, word) {
                kept.push(w);
                assert(texts(kept@) =~= texts(k0).push(w@));
                proof {
                    lemma_push_to_set(texts(k0), w@);
                }
            }
            assert(old_words.take(i + 1) =~= old_words.take(i as int).push(w@));
            proof {
                lemma_push_to_set(old_words.take(i as int), w@);
            }
            assert(texts(kept@).to_set() =~= old_words.take(i + 1).to_set().remove(word@));
            i += 1;
        }
        assert(old_words.take(self.words@.len() as int) =~= old_words);
        self.words = kept;
    }

    /// Removes every word.
    pub fn clear(&mut self)
        ensures
            final(self)@ == Set::<Seq<char>>::empty(),
    {
        self.words = Vec::new();
        assert(self@ =~= Set::<Seq<char>>::empty());
    }

    /// Keeps only the words that `excluded` does not hold.
    pub fn retain_absent(&mut self, excluded: &[&'static str])
        ensures
            final(self)@ == old(self)@.difference(texts(excluded@).to_set()),
    {
        let ghost gone = texts(excluded@).to_set();
        let ghost old_words = texts(self.words@);
        let mut kept: Vec<&'static str> = Vec::new();
        let mut i: usize = 0;
        while i < self.words.len()
            invariant
                i <= self.words@.len(),
                old_words == texts(self.words@),
                gone == texts(excluded@).to_set(),
                texts(kept@).to_set() == old_words.take(i as int).to_set().difference(gone),
            decreases self.words@.len() - i,
        {
            let w = self.words[i];
            let ghost k0 = kept@;
            let listed = WordSet::listed(excluded, w);
            if !listed {
                kept.push(w);
                assert(texts(kept@) =~= texts(k0).push(w@));
                proof {
                    lemma_push_to_set(texts(k0), w@);
                }
            }
            assert(old_words.take(i + 1) =~= old_words.take(i as int).push(w@));
            proof {
                lemma_push_to_set(old_words.take(i as int), w@);
            }
            assert(texts(kept@).to_set() =~= old_words.take(i + 1).to_set().difference(gone));
            i += 1;
        }
        assert(old_words.take(self.words@.len() as int) =~= old_words);
        self.words = kept;
    }

    /// Whether `words` lists `word`.
    fn listed(words: &[&'static str], word: &str) -> (r: bool)
        ensures
            r == texts(words@).to_set().contains(word@),
    {
        let mut i: usize = 0;
        while i < words.len()
            invariant
                i <= words@.len(),
                forall|j: int| 0 <= j < i ==> words@[j]@ != word@,
            decreases words@.len() - i,
        {
            if same_text(words[i], word) {
                assert(texts(words@)[i as int] == word@);
                return true;
            }
            i += 1;
        }
        assert(!texts(words@).contains(word@)) by {
            if texts(words@).contains(word@) {
                let j = choose|j: int| 0 <= j < texts(words@).len() && texts(words@)[j] == word@;
                assert(words@[j]@ == word@);
            }
        }
        false
    }

    /// The words of the set, in no particular order.
    pub fn words(&self) -> (ws: Vec<&'static str>)
        ensures
            texts(ws@).to_set() == self@,
    {
        self.words.clone()
    }
}

} // verus!
