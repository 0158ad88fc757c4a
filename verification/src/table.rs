//! A keyed store whose entries carry a promised lifetime.

use crate::data::{lifted, Comparable, Duplicate};
use vstd::prelude::*;

verus! {

/// What a table holds under a key: the value, and for how many ledgers the
/// entry has been asked to live.
pub struct Stored<V> {
    pub value: V,
    pub ttl: u32,
}

/// The larger of two lifetimes.
pub open spec fn longer(a: u32, b: u32) -> u32 {
    if a < b {
        b
    } else {
        a
    }
}

/// The lifetime promised to the entry under `key`, zero when there is none.
pub open spec fn ttl_of<K, V>(m: Map<K, Stored<V>>, key: K) -> u32 {
    if m.dom().contains(key) {
        m[key].ttl
    } else {
        0
    }
}

/// The value under `key`, if there is one.
pub open spec fn read<K, V>(m: Map<K, Stored<V>>, key: K) -> Option<V> {
    if m.dom().contains(key) {
        Some(m[key].value)
    } else {
        None
    }
}

/// `m` with `value` under `key`; the entry's lifetime never shrinks.
pub open spec fn put<K, V>(m: Map<K, Stored<V>>, key: K, value: V, ttl: u32) -> Map<K, Stored<V>> {
    m.insert(key, Stored { value, ttl: longer(ttl_of(m, key), ttl) })
}

/// A row of a table.
pub struct Row<K, V> {
    pub key: K,
    pub value: V,
    pub ttl: u32,
}

/// The map that a list of rows stands for: a later row hides an earlier one.
pub open spec fn rows_map<K: View, V: View>(rows: Seq<Row<K, V>>) -> Map<K::V, Stored<V::V>>
    decreases rows.len(),
{
    if rows.len() == 0 {
        Map::empty()
    } else {
        let last = rows.last();
        rows_map(rows.drop_last()).insert(
            last.key@,
            Stored { value: last.value@, ttl: last.ttl },
        )
    }
}

/// A key is in the map exactly if some row has it.
proof fn lemma_rows_dom<K: View, V: View>(rows: Seq<Row<K, V>>, key: K::V)
    ensures
        rows_map(rows).dom().contains(key) <==> exists|i: int|
            0 <= i < rows.len() && (#[trigger] rows[i]).key@ == key,
    decreases rows.len(),
{
    if rows.len() > 0 {
        let front = rows.drop_last();
        lemma_rows_dom(front, key);
        if rows_map(front).dom().contains(key) {
            let i = choose|i: int| 0 <= i < front.len() && (#[trigger] front[i]).key@ == key;
            assert(rows[i].key@ == key);
        }
        if rows.last().key@ == key {
            assert(rows[rows.len() - 1].key@ == key);
        }
        if exists|i: int| 0 <= i < rows.len() && (#[trigger] rows[i]).key@ == key {
            let i = choose|i: int| 0 <= i < rows.len() && (#[trigger] rows[i]).key@ == key;
            if i < rows.len() - 1 {
                assert(front[i].key@ == key);
            }
        }
    }
}

/// The last row with a key decides what the map holds under it.
proof fn lemma_rows_last<K: View, V: View>(rows: Seq<Row<K, V>>, i: int)
    requires
        0 <= i < rows.len(),
        forall|j: int| i < j < rows.len() ==> (#[trigger] rows[j]).key@ != rows[i].key@,
    ensures
        rows_map(rows).dom().contains(rows[i].key@),
        rows_map(rows)[rows[i].key@] == (Stored { value: rows[i].value@, ttl: rows[i].ttl }),
    decreases rows.len(),
{
    if i < rows.len() - 1 {
        let front = rows.drop_last();
        assert(front[i] == rows[i]);
        assert forall|j: int| i < j < front.len() implies (#[trigger] front[j]).key@
            != front[i].key@ by {
            assert(front[j] == rows[j]);
        }
        lemma_rows_last(front, i);
        assert(rows[rows.len() - 1].key@ != rows[i].key@);
    }
}

/// Rewriting the last row with a key rewrites the map under that key alone.
proof fn lemma_rows_update<K: View, V: View>(rows: Seq<Row<K, V>>, i: int, row: Row<K, V>)
    requires
        0 <= i < rows.len(),
        row.key@ == rows[i].key@,
        forall|j: int| i < j < rows.len() ==> (#[trigger] rows[j]).key@ != rows[i].key@,
    ensures
        rows_map(rows.update(i, row)) == rows_map(rows).insert(
            row.key@,
            Stored { value: row.value@, ttl: row.ttl },
        ),
    decreases rows.len(),
{
    let front = rows.drop_last();
    if i < rows.len() - 1 {
        assert(rows.update(i, row).drop_last() =~= front.update(i, row));
        assert forall|j: int| i < j < front.len() implies (#[trigger] front[j]).key@
            != front[i].key@ by {
            assert(front[j] == rows[j]);
        }
        lemma_rows_update(front, i, row);
        assert(rows[rows.len() - 1].key@ != rows[i].key@);
        assert(rows_map(rows.update(i, row)) =~= rows_map(rows).insert(
            row.key@,
            Stored { value: row.value@, ttl: row.ttl },
        ));
    } else {
        assert(rows.update(i, row).drop_last() =~= front);
        assert(rows_map(rows.update(i, row)) =~= rows_map(rows).insert(
            row.key@,
            Stored { value: row.value@, ttl: row.ttl },
        ));
    }
}

/// A keyed store.
pub struct Table<K, V> {
    pub rows: Vec<Row<K, V>>,
}

impl<K: View, V: View> View for Table<K, V> {
    type V = Map<K::V, Stored<V::V>>;

    open spec fn view(&self) -> Map<K::V, Stored<V::V>> {
        rows_map(self.rows@)
    }
}

impl<K: Comparable + Duplicate, V: Duplicate> Table<K, V> {
    /// A table without entries.
    pub fn new() -> (r: Self)
        ensures
            r@ == Map::<K::V, Stored<V::V>>::empty(),
    {
        Table { rows: Vec::new() }
    }

    /// The position of the row that decides what is held under `key`.
    fn find(&self, key: &K) -> (r: Option<usize>)
        ensures
            match r {
                Some(i) => {
                    &&& i < self.rows@.len()
                    &&& self.rows@[i as int].key@ == key@
                    &&& self@.dom().contains(key@)
                    &&& self@[key@] == (Stored {
                        value: self.rows@[i as int].value@,
                        ttl: self.rows@[i as int].ttl,
                    })
                    &&& forall|j: int|
                        i < j < self.rows@.len() ==> (#[trigger] self.rows@[j]).key@ != key@
                },
                None => {
                    &&& !self@.dom().contains(key@)
                    &&& forall|j: int|
                        0 <= j < self.rows@.len() ==> (#[trigger] self.rows@[j]).key@ != key@
                },
            },
    {
        let mut i: usize = self.rows.len();
        while i > 0
            invariant
                i <= self.rows@.len(),
                forall|j: int| i <= j < self.rows@.len() ==> (#[trigger] self.rows@[j]).key@ != key@,
            decreases i,
        {
            i = i - 1;
            if self.rows[i].key.same(key) {
                proof {
                    lemma_rows_last(self.rows@, i as int);
                }
                return Some(i);
            }
        }
        proof {
            lemma_rows_dom(self.rows@, key@);
        }
        None
    }

    /// Whether there is an entry under `key`.
    pub fn has(&self, key: &K) -> (r: bool)
        ensures
            r == self@.dom().contains(key@),
    {
        match self.find(key) {
            Some(_) => true,
            None => false,
        }
    }

    /// A copy of the value under `key`.
    pub fn get(&self, key: &K) -> (r: Option<V>)
        ensures
            lifted(r) == read(self@, key@),
    {
        match self.find(key) {
            Some(i) => Some(self.rows[i].value.dup()),
            None => None,
        }
    }

    /// The lifetime promised to the entry under `key`, zero when there is none.
    pub fn ttl(&self, key: &K) -> (r: u32)
        ensures
            r == ttl_of(self@, key@),
    {
        match self.find(key) {
            Some(i) => self.rows[i].ttl,
            None => 0,
        }
    }

    /// Stores `value` under `key` and asks for the entry to live at least
    /// `ttl` ledgers.
    pub fn set(&mut self, key: K, value: V, ttl: u32)
        ensures
            final(self)@ == put(old(self)@, key@, value@, ttl),
    {
        match self.find(&key) {
            Some(i) => {
                let kept: u32 = self.rows[i].ttl;
                let longest: u32 = if kept < ttl {
                    ttl
                } else {
                    kept
                };
                let row = Row { key, value, ttl: longest };
                proof {
                    lemma_rows_update(self.rows@, i as int, row);
                }
                self.rows.set(i, row);
            },
            None => {
                let row = Row { key, value, ttl };
                let ghost before = self.rows@;
                self.rows.push(row);
                assert(self.rows@.drop_last() =~= before);
            },
        }
    }

    /// Drops the entry under `key`, if there is one.
    pub fn remove(&mut self, key: &K)
        ensures
            final(self)@ == old(self)@.remove(key@),
    {
        let mut kept: Vec<Row<K, V>> = Vec::new();
        let mut i: usize = 0;
        let ghost rows = self.rows@;
        while i < self.rows.len()
            invariant
                i <= self.rows@.len(),
                self.rows@ == rows,
                rows_map(kept@) == rows_map(rows.take(i as int)).remove(key@),
            decreases self.rows@.len() - i,
        {
            let ghost before = kept@;
            assert(rows.take(i + 1).drop_last() =~= rows.take(i as int));
            if !self.rows[i].key.same(key) {
                let row = Row {
                    key: self.rows[i].key.dup(),
                    value: self.rows[i].value.dup(),
                    ttl: self.rows[i].ttl,
                };
                kept.push(row);
                assert(kept@.drop_last() =~= before);
            }
            assert(rows_map(kept@) =~= rows_map(rows.take(i + 1)).remove(key@));
            i = i + 1;
        }
        assert(rows.take(rows.len() as int) =~= rows);
        self.rows = kept;
    }
}

/// What is put under a key reads back, what is held under another key stays, and
/// no lifetime shrinks.
pub proof fn put_reads_back<K, V>(m: Map<K, Stored<V>>, key: K, value: V, ttl: u32, other: K)
    ensures
        read(put(m, key, value, ttl), key) == Some(value),
        other != key ==> read(put(m, key, value, ttl), other) == read(m, other),
        ttl_of(put(m, key, value, ttl), key) >= ttl,
        ttl_of(put(m, key, value, ttl), other) >= ttl_of(m, other),
{
}

/// Whether `after` is `before` with `value` written under `key`: the entry is there
/// and lives as long as it did and as long as asked for, whichever is longer, and
/// every other entry is as it was.
pub open spec fn written<K, V>(
    before: Map<K, Stored<V>>,
    after: Map<K, Stored<V>>,
    key: K,
    value: V,
    ttl: u32,
) -> bool {
    &&& forall|k: K| #[trigger]
        after.dom().contains(k) <==> k == key || before.dom().contains(k)
    &&& after[key].value == value
    &&& after[key].ttl >= ttl
    &&& before.dom().contains(key) ==> after[key].ttl >= before[key].ttl
    &&& after[key].ttl == ttl || before.dom().contains(key) && after[key].ttl == before[key].ttl
    &&& forall|k: K| k != key && before.dom().contains(k) ==> #[trigger] after[k] == before[k]
}

/// Whether `after` is `before` without an entry under `key`.
pub open spec fn erased<K, V>(
    before: Map<K, Stored<V>>,
    after: Map<K, Stored<V>>,
    key: K,
) -> bool {
    &&& forall|k: K| #[trigger] after.dom().contains(k) <==> k != key && before.dom().contains(k)
    &&& forall|k: K| k != key && before.dom().contains(k) ==> #[trigger] after[k] == before[k]
}

/// A value reads exactly if it is stored under the key, and what is put is written.
pub proof fn reading_is_looking_up<K, V>(m: Map<K, Stored<V>>, key: K, value: V, ttl: u32)
    ensures
        read(m, key) == Some(value) <==> m.dom().contains(key) && m[key].value == value,
        read(m, key) is None <==> !m.dom().contains(key),
        written(m, put(m, key, value, ttl), key, value, ttl),
        ttl_of(m, key) == (if m.dom().contains(key) {
            m[key].ttl
        } else {
            0
        }),
{
}

} // verus!
