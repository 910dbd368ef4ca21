//! Tables as sequences of rows with distinct keys, read as maps from key to
//! row. The stores of this crate keep their rows in a `Vec`; their contracts
//! speak of the map.

use vstd::prelude::*;

verus! {

/// A row that is found by an integer key.
pub trait Keyed {
    spec fn key(&self) -> int;
}

/// Some row of `rows` has key `k`.
pub open spec fn has_key<R: Keyed>(rows: Seq<R>, k: int) -> bool {
    exists|i: int| 0 <= i < rows.len() && #[trigger] rows[i].key() == k
}

/// A position at which `rows` holds key `k`, if any row does.
pub open spec fn position_of<R: Keyed>(rows: Seq<R>, k: int) -> int {
    choose|i: int| 0 <= i < rows.len() && #[trigger] rows[i].key() == k
}

/// No two rows share a key.
pub open spec fn distinct_keys<R: Keyed>(rows: Seq<R>) -> bool {
    forall|i: int, j: int|
        0 <= i < rows.len() && 0 <= j < rows.len() && i != j ==> #[trigger] rows[i].key()
            != #[trigger] rows[j].key()
}

/// The table that `rows` stands for.
pub open spec fn to_map<R: Keyed>(rows: Seq<R>) -> Map<int, R> {
    Map::new(|k: int| has_key(rows, k), |k: int| rows[position_of(rows, k)])
}

/// With distinct keys, each row is the one the map holds under its key.
pub proof fn lemma_row_in_map<R: Keyed>(rows: Seq<R>, i: int)
    requires
        distinct_keys(rows),
        0 <= i < rows.len(),
    ensures
        to_map(rows).dom().contains(rows[i].key()),
        to_map(rows)[rows[i].key()] == rows[i],
{
    let k = rows[i].key();
    assert(has_key(rows, k));
    let p = position_of(rows, k);
    assert(0 <= p < rows.len() && rows[p].key() == k);
    assert(p == i);
}

/// A key of the map is the key of the row found at its position.
pub proof fn lemma_key_has_row<R: Keyed>(rows: Seq<R>, k: int)
    requires
        to_map(rows).dom().contains(k),
    ensures
        0 <= position_of(rows, k) < rows.len(),
        rows[position_of(rows, k)].key() == k,
        to_map(rows)[k] == rows[position_of(rows, k)],
{
    assert(has_key(rows, k));
}

/// The empty sequence stands for the empty table.
pub proof fn lemma_empty_rows<R: Keyed>(rows: Seq<R>)
    requires
        rows.len() == 0,
    ensures
        distinct_keys(rows),
        to_map(rows) == Map::<int, R>::empty(),
{
    assert(to_map(rows) =~= Map::<int, R>::empty());
}

/// Appending a row under a new key inserts it into the table.
pub proof fn lemma_push_row<R: Keyed>(rows: Seq<R>, row: R)
    requires
        distinct_keys(rows),
        !has_key(rows, row.key()),
    ensures
        distinct_keys(rows.push(row)),
        to_map(rows.push(row)) == to_map(rows).insert(row.key(), row),
{
    let after = rows.push(row);
    assert forall|i: int, j: int|
        0 <= i < after.len() && 0 <= j < after.len() && i != j implies #[trigger] after[i].key()
        != #[trigger] after[j].key() by {
        if i < rows.len() {
            assert(after[i] == rows[i]);
        }
        if j < rows.len() {
            assert(after[j] == rows[j]);
        }
    }
    assert forall|k: int| #[trigger]
        to_map(after).dom().contains(k) == to_map(rows).insert(row.key(), row).dom().contains(
            k,
        ) by {
        if has_key(rows, k) {
            let p = position_of(rows, k);
            assert(after[p].key() == k);
        }
        if has_key(after, k) {
            let p = position_of(after, k);
            if p < rows.len() {
                assert(rows[p].key() == k);
            }
        }
        assert(after[rows.len() as int].key() == row.key());
    }
    assert forall|k: int| #[trigger] to_map(after).dom().contains(k) implies to_map(after)[k]
        == to_map(rows).insert(row.key(), row)[k] by {
        lemma_key_has_row(after, k);
        let p = position_of(after, k);
        if p < rows.len() {
            assert(after[p] == rows[p]);
            lemma_row_in_map(rows, p);
        }
    }
    assert(to_map(after) =~= to_map(rows).insert(row.key(), row));
}

/// Replacing a row by one with the same key replaces it in the table.
pub proof fn lemma_update_row<R: Keyed>(rows: Seq<R>, i: int, row: R)
    requires
        distinct_keys(rows),
        0 <= i < rows.len(),
        rows[i].key() == row.key(),
    ensures
        distinct_keys(rows.update(i, row)),
        to_map(rows.update(i, row)) == to_map(rows).insert(row.key(), row),
{
    let after = rows.update(i, row);
    assert forall|a: int, b: int|
        0 <= a < after.len() && 0 <= b < after.len() && a != b implies #[trigger] after[a].key()
        != #[trigger] after[b].key() by {
        assert(after[a].key() == rows[a].key());
        assert(after[b].key() == rows[b].key());
    }
    assert forall|k: int| #[trigger]
        to_map(after).dom().contains(k) == to_map(rows).insert(row.key(), row).dom().contains(
            k,
        ) by {
        if has_key(rows, k) {
            let p = position_of(rows, k);
            assert(after[p].key() == k);
        }
        if has_key(after, k) {
            let p = position_of(after, k);
            assert(rows[p].key() == k);
        }
        assert(rows[i].key() == row.key());
    }
    assert forall|k: int| #[trigger] to_map(after).dom().contains(k) implies to_map(after)[k]
        == to_map(rows).insert(row.key(), row)[k] by {
        lemma_key_has_row(after, k);
        let p = position_of(after, k);
        if p != i {
            assert(after[p] == rows[p]);
            lemma_row_in_map(rows, p);
        } else {
            assert(after[p] == row);
        }
    }
    assert(to_map(after) =~= to_map(rows).insert(row.key(), row));
}

/// Taking a row out takes its key out of the table.
pub proof fn lemma_remove_row<R: Keyed>(rows: Seq<R>, i: int)
    requires
        distinct_keys(rows),
        0 <= i < rows.len(),
    ensures
        distinct_keys(rows.remove(i)),
        to_map(rows.remove(i)) == to_map(rows).remove(rows[i].key()),
{
    let after = rows.remove(i);
    let gone = rows[i].key();
    assert forall|a: int| 0 <= a < after.len() implies #[trigger] after[a] == rows[if a < i {
        a
    } else {
        a + 1
    }] by {}
    assert forall|a: int, b: int|
        0 <= a < after.len() && 0 <= b < after.len() && a != b implies #[trigger] after[a].key()
        != #[trigger] after[b].key() by {
        let a0 = if a < i { a } else { a + 1 };
        let b0 = if b < i { b } else { b + 1 };
        assert(after[a] == rows[a0]);
        assert(after[b] == rows[b0]);
    }
    assert forall|k: int| #[trigger]
        to_map(after).dom().contains(k) == to_map(rows).remove(gone).dom().contains(k) by {
        if has_key(rows, k) && k != gone {
            let p = position_of(rows, k);
            let q = if p < i { p } else { p - 1 };
            assert(after[q] == rows[p]);
            assert(after[q].key() == k);
        }
        if has_key(after, k) {
            let q = position_of(after, k);
            let p = if q < i { q } else { q + 1 };
            assert(after[q] == rows[p]);
            assert(rows[p].key() == k);
            assert(p != i);
        }
    }
    assert forall|k: int| #[trigger] to_map(after).dom().contains(k) implies to_map(after)[k]
        == to_map(rows).remove(gone)[k] by {
        lemma_key_has_row(after, k);
        let q = position_of(after, k);
        let p = if q < i { q } else { q + 1 };
        assert(after[q] == rows[p]);
        lemma_row_in_map(rows, p);
    }
    assert(to_map(after) =~= to_map(rows).remove(gone));
}

/// A table of distinct rows is finite and has one entry per row.
pub proof fn lemma_table_size<R: Keyed>(rows: Seq<R>)
    requires
        distinct_keys(rows),
    ensures
        to_map(rows).dom().finite(),
        to_map(rows).dom().len() == rows.len(),
    decreases rows.len(),
{
    if rows.len() == 0 {
        lemma_empty_rows(rows);
    } else {
        let last = rows.len() - 1;
        let front = rows.remove(last);
        lemma_remove_row(rows, last);
        lemma_table_size(front);
        lemma_row_in_map(rows, last);
        let k = rows[last].key();
        assert(to_map(rows).dom() =~= to_map(front).dom().insert(k));
        assert(!to_map(front).dom().contains(k));
    }
}

} // verus!
