//! First-non-empty selection over a list of texts.

use vstd::prelude::*;

verus! {

/// The texts that a slice of string slices stands for.
pub open spec fn texts(words: Seq<&str>) -> Seq<Seq<char>> {
    Seq::new(words.len(), |i: int| words[i]@)
}

/// The first non-empty text of `words` at or after position `start`, or the
/// empty text where there is none.
pub open spec fn first_non_empty_from(words: Seq<Seq<char>>, start: int) -> Seq<char>
    decreases words.len() - start,
{
    if start < 0 || start >= words.len() {
        Seq::empty()
    } else if words[start].len() > 0 {
        words[start]
    } else {
        first_non_empty_from(words, start + 1)
    }
}

/// The first non-empty text of `words`, or the empty text where every entry
/// is empty (or there is no entry at all).
pub open spec fn first_non_empty(words: Seq<Seq<char>>) -> Seq<char> {
    first_non_empty_from(words, 0)
}

/// Where some entry is non-empty, `first_non_empty` is the entry at the least
/// position that holds one; where none is, it is the empty text.
pub proof fn lemma_first_non_empty(words: Seq<Seq<char>>)
    ensures
        (forall|i: int| 0 <= i < words.len() ==> words[i].len() == 0) ==> first_non_empty(words)
            == Seq::<char>::empty(),
        forall|i: int|
            0 <= i < words.len() && words[i].len() > 0 && (forall|j: int|
                0 <= j < i ==> words[j].len() == 0) ==> first_non_empty(words) == words[i],
{
    lemma_first_non_empty_from(words, 0);
}

proof fn lemma_first_non_empty_from(words: Seq<Seq<char>>, start: int)
    requires
        0 <= start,
    ensures
        (forall|i: int| start <= i < words.len() ==> words[i].len() == 0) ==> first_non_empty_from(
            words,
            start,
        ) == Seq::<char>::empty(),
        forall|i: int|
            start <= i < words.len() && words[i].len() > 0 && (forall|j: int|
                start <= j < i ==> words[j].len() == 0) ==> first_non_empty_from(words, start)
                == words[i],
    decreases words.len() - start,
{
    if start < words.len() && words[start].len() == 0 {
        lemma_first_non_empty_from(words, start + 1);
    }
}

/// Returns the first non-empty string of `words`, or the empty string where
/// all of them are empty.
pub fn coalesce<'r>(words: &[&'r str]) -> (found: &'r str)
    ensures
        found@ == first_non_empty(texts(words@)),
{
    let ghost all = texts(words@);
    let mut i: usize = 0;
    while i < words.len()
        invariant
            i <= words.len(),
            all == texts(words@),
            first_non_empty_from(all, i as int) == first_non_empty(all),
        decreases words.len() - i,
    {
        let word: &'r str = words[i];
        if !word.is_empty() {
            return word;
        }
        i += 1;
    }
    proof {
        reveal_strlit("");
    }
    ""
}

} // verus!
