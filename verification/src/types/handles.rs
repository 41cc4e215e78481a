use vstd::prelude::*;

verus! {

/// What a command reads of a value held under a handle.
#[derive(PartialEq, Eq, Structural, Clone, Copy, Debug)]
pub enum HandleValue {
    /// A list of the given length.
    List(usize),
    /// Any value that is not a list.
    Other,
}

/// The values that scripts hold by handle, keyed by the handle's text.
pub struct HandleStore {
    entries: Vec<(String, HandleValue)>,
}

/// The value of the last entry under `key`, if any.
pub open spec fn latest(entries: Seq<(String, HandleValue)>, key: Seq<char>) -> Option<HandleValue>
    decreases entries.len(),
{
    if entries.len() == 0 {
        None
    } else if entries.last().0@ == key {
        Some(entries.last().1)
    } else {
        latest(entries.drop_last(), key)
    }
}

impl View for HandleStore {
    type V = Map<Seq<char>, HandleValue>;

    closed spec fn view(&self) -> Map<Seq<char>, HandleValue> {
        Map::new(
            |k: Seq<char>| latest(self.entries@, k) is Some,
            |k: Seq<char>| latest(self.entries@, k)->0,
        )
    }
}

impl HandleStore {
    /// An empty store.
    pub fn new() -> (store: Self)
        ensures
            store@ == Map::<Seq<char>, HandleValue>::empty(),
    {
        let store = HandleStore { entries: Vec::new() };
        assert(store@ =~= Map::<Seq<char>, HandleValue>::empty());
        store
    }

    /// Holds `value` under `key`, in place of what was held there.
    pub fn insert(&mut self, key: String, value: HandleValue)
        ensures
            final(self)@ == old(self)@.insert(key@, value),
    {
        let ghost k = key@;
        self.entries.push((key, value));
        proof {
            assert(self.entries@.drop_last() =~= old(self).entries@);
        }
        assert(self@ =~= old(self)@.insert(k, value));
    }

    /// The value held under `key`, if any.
    pub fn get(&self, key: &String) -> (res: Option<HandleValue>)
        ensures
            res == (if self@.contains_key(key@) { Some(self@[key@]) } else { None::<HandleValue> }),
    {
        let mut i = self.entries.len();
        assert(self.entries@.subrange(0, i as int) =~= self.entries@);
        while i > 0
            invariant
                i <= self.entries@.len(),
                latest(self.entries@, key@) == latest(self.entries@.subrange(0, i as int), key@),
            decreases i,
        {
            let ghost prefix = self.entries@.subrange(0, i as int);
            assert(prefix.drop_last() =~= self.entries@.subrange(0, i - 1));
            assert(prefix.last() == self.entries@[i - 1]);
            if self.entries[i - 1].0 == *key {
                return Some(self.entries[i - 1].1);
            }
            i = i - 1;
        }
        None
    }
}

/// A lookup gives back what was last held under its key, and holding a value
/// under one key leaves every other key as it was.
pub proof fn lemma_lookup_after_insert(
    before: Map<Seq<char>, HandleValue>,
    key: Seq<char>,
    value: HandleValue,
    other: Seq<char>,
)
    requires
        other != key,
    ensures
        before.insert(key, value).contains_key(key),
        before.insert(key, value)[key] == value,
        before.insert(key, value).contains_key(other) == before.contains_key(other),
        before.contains_key(other) ==> before.insert(key, value)[other] == before[other],
{
}

} // verus!
