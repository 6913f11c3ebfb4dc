//! Lists of key-value rows, read as maps.

use vstd::prelude::*;

verus! {

/// The map that a list of rows describes: each row in turn is entered under
/// its key, so of two rows with one key the later one counts.
pub open spec fn table<K, V>(rows: Seq<(K, V)>) -> Map<K, V>
    decreases rows.len(),
{
    if rows.len() == 0 {
        Map::empty()
    } else {
        table(rows.drop_last()).insert(rows.last().0, rows.last().1)
    }
}

/// No two rows have the same key.
pub open spec fn distinct_keys<K, V>(rows: Seq<(K, V)>) -> bool {
    forall|i: int, j: int| 0 <= i < j < rows.len() ==> rows[i].0 != rows[j].0
}

/// Some row has the key `key`.
pub open spec fn has_key<K, V>(rows: Seq<(K, V)>, key: K) -> bool {
    exists|i: int| 0 <= i < rows.len() && #[trigger] rows[i].0 == key
}

/// The map has exactly the keys of the rows.
pub proof fn lemma_table_keys<K, V>(rows: Seq<(K, V)>, key: K)
    ensures
        table(rows).contains_key(key) <==> has_key(rows, key),
    decreases rows.len(),
{
    if rows.len() > 0 {
        let front = rows.drop_last();
        lemma_table_keys(front, key);
        if has_key(front, key) {
            let i = choose|i: int| 0 <= i < front.len() && #[trigger] front[i].0 == key;
            assert(rows[i].0 == key);
        }
        if has_key(rows, key) {
            let i = choose|i: int| 0 <= i < rows.len() && #[trigger] rows[i].0 == key;
            if i < rows.len() - 1 {
                assert(front[i].0 == key);
            }
        }
        if rows.last().0 == key {
            assert(rows[rows.len() - 1].0 == key);
        }
    }
}

/// Where the keys are distinct, the map gives each key the value of its row.
pub proof fn lemma_table_row<K, V>(rows: Seq<(K, V)>, i: int)
    requires
        distinct_keys(rows),
        0 <= i < rows.len(),
    ensures
        table(rows).contains_key(rows[i].0),
        table(rows)[rows[i].0] == rows[i].1,
    decreases rows.len(),
{
    let front = rows.drop_last();
    if i < rows.len() - 1 {
        assert(distinct_keys(front)) by {
            assert forall|a: int, b: int| 0 <= a < b < front.len() implies front[a].0
                != front[b].0 by {
                assert(rows[a].0 != rows[b].0);
            }
        }
        lemma_table_row(front, i);
        assert(front[i] == rows[i]);
    }
}

/// Entering a row under a new key, at any place of the list, enters it in
/// the map.
pub proof fn lemma_table_insert<K, V>(rows: Seq<(K, V)>, at: int, key: K, value: V)
    requires
        0 <= at <= rows.len(),
        !has_key(rows, key),
    ensures
        table(rows.insert(at, (key, value))) == table(rows).insert(key, value),
    decreases rows.len(),
{
    let grown = rows.insert(at, (key, value));
    if at == rows.len() {
        assert(grown.drop_last() =~= rows);
    } else {
        let front = rows.drop_last();
        let last = rows.last();
        assert(!has_key(front, key)) by {
            if has_key(front, key) {
                let i = choose|i: int| 0 <= i < front.len() && #[trigger] front[i].0 == key;
                assert(rows[i].0 == key);
            }
        }
        lemma_table_insert(front, at, key, value);
        assert(grown.drop_last() =~= front.insert(at, (key, value)));
        assert(grown.last() == last);
        assert(last.0 != key) by {
            assert(rows[rows.len() - 1].0 == last.0);
        }
        assert(table(front).insert(key, value).insert(last.0, last.1) =~= table(front).insert(
            last.0,
            last.1,
        ).insert(key, value));
    }
}

/// Where the keys are distinct, giving a row a new value gives its key that
/// value in the map.
pub proof fn lemma_table_update<K, V>(rows: Seq<(K, V)>, i: int, value: V)
    requires
        distinct_keys(rows),
        0 <= i < rows.len(),
    ensures
        table(rows.update(i, (rows[i].0, value))) == table(rows).insert(rows[i].0, value),
    decreases rows.len(),
{
    let changed = rows.update(i, (rows[i].0, value));
    let front = rows.drop_last();
    if i == rows.len() - 1 {
        assert(changed.drop_last() =~= front);
        assert(table(front).insert(rows[i].0, rows[i].1).insert(rows[i].0, value) =~= table(
            front,
        ).insert(rows[i].0, value));
    } else {
        let last = rows.last();
        assert(distinct_keys(front)) by {
            assert forall|a: int, b: int| 0 <= a < b < front.len() implies front[a].0
                != front[b].0 by {
                assert(rows[a].0 != rows[b].0);
            }
        }
        lemma_table_update(front, i, value);
        assert(changed.drop_last() =~= front.update(i, (front[i].0, value)));
        assert(changed.last() == last);
        assert(rows[i].0 != rows[rows.len() - 1].0);
        assert(table(front).insert(rows[i].0, value).insert(last.0, last.1) =~= table(
            front,
        ).insert(last.0, last.1).insert(rows[i].0, value));
    }
}

} // verus!
