//! The details map: a side channel of typed values under string keys.
//!
//! A value is one of a closed set of kinds. A reader asks for one kind and
//! gets the value only where the key is present and holds that kind.

use vstd::prelude::*;

verus! {

/// One value of the details map, tagged with its kind.
#[derive(Debug)]
pub enum DetailValue {
    Flag(bool),
    Signed(i64),
    Unsigned(u64),
    Text(String),
}

/// What a `DetailValue` holds.
pub enum DetailValueView {
    Flag(bool),
    Signed(i64),
    Unsigned(u64),
    Text(Seq<char>),
}

impl View for DetailValue {
    type V = DetailValueView;

    open spec fn view(&self) -> DetailValueView {
        match self {
            DetailValue::Flag(b) => DetailValueView::Flag(*b),
            DetailValue::Signed(n) => DetailValueView::Signed(*n),
            DetailValue::Unsigned(n) => DetailValueView::Unsigned(*n),
            DetailValue::Text(t) => DetailValueView::Text(t@),
        }
    }
}

/// The flag stored under `key`, where the key is present and holds a flag.
pub open spec fn flag_at(map: Map<Seq<char>, DetailValueView>, key: Seq<char>) -> Option<bool> {
    if map.contains_key(key) {
        match map[key] {
            DetailValueView::Flag(b) => Some(b),
            _ => None,
        }
    } else {
        None
    }
}

/// The signed number stored under `key`, where the key is present and holds
/// a signed number.
pub open spec fn signed_at(map: Map<Seq<char>, DetailValueView>, key: Seq<char>) -> Option<i64> {
    if map.contains_key(key) {
        match map[key] {
            DetailValueView::Signed(n) => Some(n),
            _ => None,
        }
    } else {
        None
    }
}

/// The unsigned number stored under `key`, where the key is present and
/// holds an unsigned number.
pub open spec fn unsigned_at(map: Map<Seq<char>, DetailValueView>, key: Seq<char>) -> Option<u64> {
    if map.contains_key(key) {
        match map[key] {
            DetailValueView::Unsigned(n) => Some(n),
            _ => None,
        }
    } else {
        None
    }
}

/// The text stored under `key`, where the key is present and holds a text.
pub open spec fn text_at(map: Map<Seq<char>, DetailValueView>, key: Seq<char>) -> Option<
    Seq<char>,
> {
    if map.contains_key(key) {
        match map[key] {
            DetailValueView::Text(t) => Some(t),
            _ => None,
        }
    } else {
        None
    }
}

/// A map from string keys to typed values. No key occurs twice: storing
/// under a key that is present replaces its value.
#[derive(Debug)]
pub struct Details {
    entries: Vec<(String, DetailValue)>,
}

impl View for Details {
    type V = Map<Seq<char>, DetailValueView>;

    closed spec fn view(&self) -> Map<Seq<char>, DetailValueView> {
        Map::new(
            |key: Seq<char>| self.holds(key),
            |key: Seq<char>| self.entries[self.position(key)].1@,
        )
    }
}

impl Details {
    #[verifier::type_invariant]
    spec fn distinct_keys(&self) -> bool {
        forall|i: int, j: int|
            0 <= i < j < self.entries.len() ==> self.entries[i].0@ != self.entries[j].0@
    }

    spec fn holds(&self, key: Seq<char>) -> bool {
        exists|i: int| 0 <= i < self.entries.len() && self.entries[i].0@ == key
    }

    spec fn position(&self, key: Seq<char>) -> int {
        choose|i: int| 0 <= i < self.entries.len() && self.entries[i].0@ == key
    }

    /// The empty map.
    pub fn new() -> (details: Details)
        ensures
            details@ == Map::<Seq<char>, DetailValueView>::empty(),
    {
        let details = Details { entries: Vec::new() };
        assert(details@ =~= Map::<Seq<char>, DetailValueView>::empty());
        details
    }

    fn find(&self, key: &String) -> (found: Option<usize>)
        ensures
            match found {
                Some(i) => i < self.entries.len() && self.entries[i as int].0@ == key@
                    && self.holds(key@) && self.position(key@) == i,
                None => !self.holds(key@),
            },
    {
        proof {
            use_type_invariant(self);
        }
        let mut i: usize = 0;
        while i < self.entries.len()
            invariant
                i <= self.entries.len(),
                self.distinct_keys(),
                forall|j: int| 0 <= j < i ==> self.entries[j].0@ != key@,
            decreases self.entries.len() - i,
        {
            if self.entries[i].0 == *key {
                proof {
                    assert(self.entries[i as int].0@ == key@);
                    let j = self.position(key@);
                    assert(self.entries[j].0@ == key@);
                    assert(j == i) by {
                        if j < i {
                            assert(self.entries[j].0@ != self.entries[i as int].0@);
                        }
                        if i < j {
                            assert(self.entries[i as int].0@ != self.entries[j].0@);
                        }
                    }
                }
                return Some(i);
            }
            i += 1;
        }
        None
    }

    /// Stores `value` under `key`, in place of what the key held before.
    pub fn insert(&mut self, key: &str, value: DetailValue)
        ensures
            final(self)@ == old(self)@.insert(key@, value@),
    {
        proof {
            use_type_invariant(&*self);
        }
        let owned: String = String::from_str(key);
        let place: Option<usize> = self.find(&owned);
        let mut taken: Details = Details::new();
        std::mem::swap(self, &mut taken);
        let mut entries: Vec<(String, DetailValue)> = taken.entries;
        match place {
            Some(i) => {
                entries.set(i, (owned, value));
            },
            None => {
                entries.push((owned, value));
            },
        }
        let stored = Details { entries };
        proof {
            let n = old(self).entries.len() as int;
            assert forall|k: Seq<char>| stored.holds(k) == (old(self).holds(k) || k == key@) by {
                if old(self).holds(k) {
                    assert(stored.entries[old(self).position(k)].0@ == k);
                }
                if stored.holds(k) && k != key@ {
                    assert(old(self).entries[stored.position(k)].0@ == k);
                }
                match place {
                    Some(i) => {
                        assert(stored.entries[i as int].0@ == key@);
                    },
                    None => {
                        assert(stored.entries[n].0@ == key@);
                    },
                }
            }
            assert(stored@ =~= old(self)@.insert(key@, value@));
        }
        *self = stored;
    }

    /// The value stored under `key`, of whatever kind.
    pub fn get(&self, key: &str) -> (found: Option<&DetailValue>)
        ensures
            match found {
                Some(value) => self@.contains_key(key@) && self@[key@] == value@,
                None => !self@.contains_key(key@),
            },
    {
        let owned: String = String::from_str(key);
        match self.find(&owned) {
            Some(i) => Some(&self.entries[i].1),
            None => None,
        }
    }

    /// The flag stored under `key`; `None` where the key is absent or holds
    /// a value of another kind.
    pub fn get_flag(&self, key: &str) -> (found: Option<bool>)
        ensures
            found == flag_at(self@, key@),
    {
        match self.get(key) {
            Some(DetailValue::Flag(b)) => Some(*b),
            _ => None,
        }
    }

    /// The signed number stored under `key`; `None` where the key is absent
    /// or holds a value of another kind.
    pub fn get_signed(&self, key: &str) -> (found: Option<i64>)
        ensures
            found == signed_at(self@, key@),
    {
        match self.get(key) {
            Some(DetailValue::Signed(n)) => Some(*n),
            _ => None,
        }
    }

    /// The unsigned number stored under `key`; `None` where the key is
    /// absent or holds a value of another kind.
    pub fn get_unsigned(&self, key: &str) -> (found: Option<u64>)
        ensures
            found == unsigned_at(self@, key@),
    {
        match self.get(key) {
            Some(DetailValue::Unsigned(n)) => Some(*n),
            _ => None,
        }
    }

    /// The text stored under `key`; `None` where the key is absent or holds
    /// a value of another kind.
    pub fn get_text(&self, key: &str) -> (found: Option<&str>)
        ensures
            match found {
                Some(text) => text_at(self@, key@) == Some(text@),
                None => text_at(self@, key@) is None,
            },
    {
        match self.get(key) {
            Some(DetailValue::Text(t)) => Some(t.as_str()),
            _ => None,
        }
    }
}

} // verus!
