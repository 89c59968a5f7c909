use vstd::prelude::*;

verus! {

/// A key of a storage table: keys are compared by their view.
pub trait TableKey: View + Sized {
    /// Whether two keys name the same entry.
    fn same_key(&self, other: &Self) -> (r: bool)
        ensures
            r == (self@ == other@),
    ;
}

impl TableKey for u64 {
    fn same_key(&self, other: &Self) -> (r: bool) {
        *self == *other
    }
}

impl TableKey for (u64, u64) {
    fn same_key(&self, other: &Self) -> (r: bool) {
        self.0 == other.0 && self.1 == other.1
    }
}

/// The map that a log of writes leaves behind: later writes to a key
/// replace earlier ones.
pub open spec fn written_map<K: View, V: View>(log: Seq<(K, V)>) -> Map<K::V, V::V>
    decreases log.len(),
{
    if log.len() == 0 {
        Map::empty()
    } else {
        written_map(log.drop_last()).insert(log.last().0@, log.last().1@)
    }
}

/// A key-value store with the semantics of contract storage: `set`
/// overwrites, `get` reads the last value written under a key.
///
/// `set` replaces the entry of a key in place, so each key written through
/// it has one entry; where entries were put in directly, the last one of a
/// key holds its value.
pub struct Table<K, V> {
    pub entries: Vec<(K, V)>,
}

impl<K: View, V: View> View for Table<K, V> {
    type V = Map<K::V, V::V>;

    open spec fn view(&self) -> Map<K::V, V::V> {
        written_map(self.entries@)
    }
}

/// Writes after position `i` that touch other keys do not change what
/// the log says of `k`.
proof fn lemma_written_suffix<K: View, V: View>(log: Seq<(K, V)>, i: int, k: K::V)
    requires
        0 <= i <= log.len(),
        forall|j: int| i <= j < log.len() ==> (#[trigger] log[j]).0@ != k,
    ensures
        written_map(log).contains_key(k) == written_map(log.take(i)).contains_key(k),
        written_map(log).contains_key(k) ==> written_map(log)[k] == written_map(log.take(i))[k],
    decreases log.len(),
{
    if i == log.len() {
        assert(log.take(i) =~= log);
    } else {
        let init = log.drop_last();
        assert(log[log.len() - 1].0@ != k);
        assert forall|j: int| i <= j < init.len() implies (#[trigger] init[j]).0@ != k by {
            assert(init[j] == log[j]);
        }
        lemma_written_suffix(init, i, k);
        assert(init.take(i) =~= log.take(i));
    }
}

/// Replacing the last write to a key with a new write to that key is the
/// same as writing the new value after the whole log.
proof fn lemma_written_replace_last<K: View, V: View>(log: Seq<(K, V)>, i: int, e: (K, V))
    requires
        0 <= i < log.len(),
        log[i].0@ == e.0@,
        forall|j: int| i < j < log.len() ==> (#[trigger] log[j]).0@ != e.0@,
    ensures
        written_map(log.update(i, e)) == written_map(log).insert(e.0@, e.1@),
    decreases log.len(),
{
    let updated = log.update(i, e);
    if i == log.len() - 1 {
        assert(updated.drop_last() =~= log.drop_last());
        assert(written_map(updated) =~= written_map(log).insert(e.0@, e.1@));
    } else {
        let init = log.drop_last();
        assert forall|j: int| i < j < init.len() implies (#[trigger] init[j]).0@ != e.0@ by {
            assert(init[j] == log[j]);
        }
        lemma_written_replace_last(init, i, e);
        assert(updated.drop_last() =~= init.update(i, e));
        assert(log[log.len() - 1].0@ != e.0@);
        assert(written_map(updated) =~= written_map(log).insert(e.0@, e.1@));
    }
}

impl<K: TableKey, V: View> Table<K, V> {
    /// An empty table.
    pub fn new() -> (t: Self)
        ensures
            t@ == Map::<K::V, V::V>::empty(),
    {
        Table { entries: Vec::new() }
    }

    /// The value last written under `k`, if any.
    pub fn get(&self, k: &K) -> (r: Option<&V>)
        ensures
            match r {
                Some(v) => self@.contains_key(k@) && v@ == self@[k@],
                None => !self@.contains_key(k@),
            },
    {
        let mut i = self.entries.len();
        while i > 0
            invariant
                i <= self.entries.len(),
                forall|j: int| i <= j < self.entries.len() ==> (#[trigger] self.entries@[j]).0@ != k@,
            decreases i,
        {
            i = i - 1;
            if self.entries[i].0.same_key(k) {
                proof {
                    let log = self.entries@;
                    lemma_written_suffix(log, i + 1, k@);
                    assert(log.take(i + 1).drop_last() =~= log.take(i as int));
                }
                return Some(&self.entries[i].1);
            }
        }
        proof {
            lemma_written_suffix(self.entries@, 0, k@);
        }
        None
    }

    /// Whether a value was ever written under `k`.
    pub fn has(&self, k: &K) -> (r: bool)
        ensures
            r == self@.contains_key(k@),
    {
        self.get(k).is_some()
    }

    /// Writes `v` under `k`, replacing what was there.
    pub fn set(&mut self, k: K, v: V)
        ensures
            final(self)@ == old(self)@.insert(k@, v@),
    {
        let mut i = self.entries.len();
        while i > 0
            invariant
                i <= self.entries.len(),
                self.entries@ == old(self).entries@,
                forall|j: int| i <= j < self.entries.len() ==> (#[trigger] self.entries@[j]).0@ != k@,
            decreases i,
        {
            i = i - 1;
            if self.entries[i].0.same_key(&k) {
                proof {
                    lemma_written_replace_last(self.entries@, i as int, (k, v));
                }
                self.entries.set(i, (k, v));
                return;
            }
        }
        self.entries.push((k, v));
        proof {
            let log = self.entries@;
            assert(log.drop_last() =~= old(self).entries@);
        }
    }
}

} // verus!
