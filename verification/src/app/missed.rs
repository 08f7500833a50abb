//! How many inventory refreshes each recently seen row has been missing from.
use vstd::prelude::*;

verus! {

/// Counts of missed inventory refreshes, by inventory id.
#[derive(Debug)]
pub struct MissedRefreshes {
    entries: Vec<(String, u8)>,
}

/// The counts that a list of entries holds; a later entry for an id replaces
/// an earlier one.
pub open spec fn entries_map(e: Seq<(String, u8)>) -> Map<Seq<char>, u8>
    decreases e.len(),
{
    if e.len() == 0 {
        Map::empty()
    } else {
        entries_map(e.drop_last()).insert(e.last().0@, e.last().1)
    }
}

/// The entries whose id is not `key`, in their order.
pub open spec fn without_key(e: Seq<(String, u8)>, key: Seq<char>) -> Seq<(String, u8)>
    decreases e.len(),
{
    if e.len() == 0 {
        e
    } else if e.last().0@ == key {
        without_key(e.drop_last(), key)
    } else {
        without_key(e.drop_last(), key).push(e.last())
    }
}

proof fn lemma_without_key(e: Seq<(String, u8)>, key: Seq<char>)
    ensures
        entries_map(without_key(e, key)) == entries_map(e).remove(key),
    decreases e.len(),
{
    if e.len() == 0 {
        assert(entries_map(e).remove(key) =~= Map::empty());
    } else {
        lemma_without_key(e.drop_last(), key);
        if e.last().0@ == key {
            assert(entries_map(e).remove(key) =~= entries_map(e.drop_last()).remove(key));
        } else {
            let w = without_key(e.drop_last(), key).push(e.last());
            assert(w.drop_last() =~= without_key(e.drop_last(), key));
            assert(entries_map(w) =~= entries_map(e).remove(key));
        }
    }
}

impl View for MissedRefreshes {
    type V = Map<Seq<char>, u8>;

    closed spec fn view(&self) -> Map<Seq<char>, u8> {
        entries_map(self.entries@)
    }
}

impl MissedRefreshes {
    /// No counts.
    pub fn new() -> (r: Self)
        ensures
            r@ == Map::<Seq<char>, u8>::empty(),
    {
        let r = MissedRefreshes { entries: Vec::new() };
        assert(r@ =~= Map::<Seq<char>, u8>::empty());
        r
    }

    /// The count of `key`, if it has one.
    pub fn get(&self, key: &str) -> (r: Option<u8>)
        ensures
            r == (if self@.contains_key(key@) { Some(self@[key@]) } else { None::<u8> }),
    {
        let n = self.entries.len();
        let mut found: Option<u8> = None;
        let mut i: usize = 0;
        while i < n
            invariant
                n == self.entries@.len(),
                i <= n,
                found == (if entries_map(self.entries@.subrange(0, i as int)).contains_key(key@) {
                    Some(entries_map(self.entries@.subrange(0, i as int))[key@])
                } else {
                    None::<u8>
                }),
            decreases n - i,
        {
            assert(self.entries@.subrange(0, i + 1).drop_last() =~= self.entries@.subrange(0, i as int));
            if crate::text::same_text(self.entries[i].0.as_str(), key) {
                found = Some(self.entries[i].1);
            }
            i = i + 1;
        }
        assert(self.entries@.subrange(0, n as int) =~= self.entries@);
        found
    }

    /// Drops the count of `key`.
    pub fn remove(&mut self, key: &str)
        ensures
            final(self)@ == old(self)@.remove(key@),
    {
        let n = self.entries.len();
        let mut kept: Vec<(String, u8)> = Vec::new();
        let mut i: usize = 0;
        while i < n
            invariant
                n == self.entries@.len(),
                i <= n,
                kept@ == without_key(self.entries@.subrange(0, i as int), key@),
            decreases n - i,
        {
            assert(self.entries@.subrange(0, i + 1).drop_last() =~= self.entries@.subrange(0, i as int));
            if !crate::text::same_text(self.entries[i].0.as_str(), key) {
                kept.push((self.entries[i].0.clone(), self.entries[i].1));
            }
            i = i + 1;
        }
        assert(self.entries@.subrange(0, n as int) =~= self.entries@);
        proof {
            lemma_without_key(self.entries@, key@);
        }
        self.entries = kept;
    }

    /// Sets the count of `key` to `value`.
    pub fn set(&mut self, key: &str, value: u8)
        ensures
            final(self)@ == old(self)@.insert(key@, value),
    {
        self.remove(key);
        let ghost before = self.entries@;
        self.entries.push((crate::text::owned(key), value));
        assert(self.entries@.drop_last() =~= before);
        assert(self@ =~= old(self)@.remove(key@).insert(key@, value));
    }
}

} // verus!
