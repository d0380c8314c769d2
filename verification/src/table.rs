//! An association table, the shape in which keyed ledger entries are held.
use vstd::prelude::*;

verus! {

/// A key of a [`Table`]: two keys are the same exactly when their views are equal.
pub trait Key: View + Sized {
    fn same(&self, other: &Self) -> (r: bool)
        ensures
            r == (self@ == other@),
    ;
}

impl Key for u64 {
    fn same(&self, other: &Self) -> bool {
        *self == *other
    }
}

/// What a list of entries stands for as a map. A later entry wins over an earlier one.
pub open spec fn entries_map<K: View, V: View>(entries: Seq<(K, V)>) -> Map<K::V, V::V>
    decreases entries.len(),
{
    if entries.len() == 0 {
        Map::empty()
    } else {
        entries_map(entries.drop_last()).insert(entries.last().0@, entries.last().1@)
    }
}

/// What a table holds under a key, or a default where it holds nothing.
pub open spec fn get_or<A, B>(m: Map<A, B>, k: A, default: B) -> B {
    if m.contains_key(k) {
        m[k]
    } else {
        default
    }
}

/// A table from keys to values, seen as a map between their views.
#[verifier::reject_recursive_types(K)]
#[verifier::reject_recursive_types(V)]
pub struct Table<K: Key, V: View> {
    entries: Vec<(K, V)>,
}

impl<K: Key, V: View> View for Table<K, V> {
    type V = Map<K::V, V::V>;

    closed spec fn view(&self) -> Map<K::V, V::V> {
        entries_map(self.entries@)
    }
}

impl<K: Key, V: View> Table<K, V> {
    /// The empty table.
    pub fn new() -> (r: Self)
        ensures
            r@ == Map::<K::V, V::V>::empty(),
    {
        Table { entries: Vec::new() }
    }

    /// The value held under `key`.
    pub fn get(&self, key: &K) -> (r: Option<&V>)
        ensures
            r is Some <==> self@.contains_key(key@),
            r matches Some(v) ==> v@ == self@[key@],
    {
        let mut i: usize = self.entries.len();
        assert(self.entries@.take(i as int) =~= self.entries@);
        while i > 0
            invariant
                i <= self.entries@.len(),
                self@.contains_key(key@) == entries_map(
                    self.entries@.take(i as int),
                ).contains_key(key@),
                self@.contains_key(key@) ==> self@[key@] == entries_map(
                    self.entries@.take(i as int),
                )[key@],
            decreases i,
        {
            let ghost upto = self.entries@.take(i as int);
            i -= 1;
            assert(upto.drop_last() =~= self.entries@.take(i as int));
            if self.entries[i].0.same(key) {
                return Some(&self.entries[i].1);
            }
        }
        None
    }

    /// Whether the table holds a value under `key`.
    pub fn contains(&self, key: &K) -> (r: bool)
        ensures
            r == self@.contains_key(key@),
    {
        self.get(key).is_some()
    }

    /// Removes the value held under `key`, if there is one.
    pub fn remove(&mut self, key: &K)
        ensures
            final(self)@ == old(self)@.remove(key@),
    {
        let mut i: usize = self.entries.len();
        let ghost before = self@;
        proof {
            let s = self.entries@;
            assert(s.skip(s.len() as int) =~= Seq::<(K, V)>::empty());
        }
        while i > 0
            invariant
                i <= self.entries@.len(),
                self@.remove(key@) == before.remove(key@),
                forall|j: int|
                    i <= j < self.entries@.len() ==> (#[trigger] self.entries@[j]).0@ != key@,
            decreases i,
        {
            i -= 1;
            if self.entries[i].0.same(key) {
                let ghost s = self.entries@;
                self.entries.remove(i);
                proof {
                    lemma_remove_entry(s, i as int);
                }
            }
        }
        proof {
            lemma_absent(self.entries@, key@);
            assert(self@.remove(key@) =~= self@);
        }
    }

    /// Puts `value` under `key`, in place of what was there.
    pub fn insert(&mut self, key: K, value: V)
        ensures
            final(self)@ == old(self)@.insert(key@, value@),
    {
        self.remove(&key);
        let ghost s = self.entries@;
        self.entries.push((key, value));
        proof {
            assert(self.entries@.drop_last() =~= s);
            assert(self@ =~= old(self)@.insert(key@, value@));
        }
    }
}

/// Taking an entry out of a list changes its map at most under that entry's key.
proof fn lemma_remove_entry<K: View, V: View>(s: Seq<(K, V)>, i: int)
    requires
        0 <= i < s.len(),
    ensures
        entries_map(s.remove(i)).remove(s[i].0@) =~= entries_map(s).remove(s[i].0@),
    decreases s.len(),
{
    if i == s.len() - 1 {
        assert(s.remove(i) =~= s.drop_last());
    } else {
        lemma_remove_entry(s.drop_last(), i);
        assert(s.remove(i).drop_last() =~= s.drop_last().remove(i));
        assert(s.drop_last()[i] == s[i]);
        assert(s.remove(i).last() == s.last());
        let k = s[i].0@;
        let a = entries_map(s.drop_last().remove(i));
        let b = entries_map(s.drop_last());
        let (l, v) = (s.last().0@, s.last().1@);
        assert(a.remove(k) == b.remove(k));
        if l == k {
            assert(a.insert(l, v).remove(k) =~= a.remove(k));
            assert(b.insert(l, v).remove(k) =~= b.remove(k));
        } else {
            assert(a.insert(l, v).remove(k) =~= a.remove(k).insert(l, v));
            assert(b.insert(l, v).remove(k) =~= b.remove(k).insert(l, v));
        }
    }
}

/// A key that no entry carries is not in the map.
proof fn lemma_absent<K: View, V: View>(s: Seq<(K, V)>, k: K::V)
    requires
        forall|j: int| 0 <= j < s.len() ==> (#[trigger] s[j]).0@ != k,
    ensures
        !entries_map(s).contains_key(k),
    decreases s.len(),
{
    if s.len() > 0 {
        assert(s.last() == s[s.len() - 1]);
        assert forall|j: int| 0 <= j < s.drop_last().len() implies (#[trigger] s.drop_last()[j]).0@
            != k by {
            assert(s.drop_last()[j] == s[j]);
        }
        lemma_absent(s.drop_last(), k);
    }
}

} // verus!
