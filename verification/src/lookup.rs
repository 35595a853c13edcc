//! Finding rows in a table: the first row that is wanted, and the rows that
//! are kept when others are deleted.

use vstd::prelude::*;

verus! {

/// Whether `rows[i]` is the first row that is wanted.
pub open spec fn is_first<T>(rows: Seq<T>, wanted: spec_fn(T) -> bool, i: int) -> bool {
    &&& 0 <= i < rows.len()
    &&& wanted(rows[i])
    &&& forall|j: int| 0 <= j < i ==> !wanted(#[trigger] rows[j])
}

/// The place of the first row that is wanted, if there is one.
pub open spec fn first_index<T>(rows: Seq<T>, wanted: spec_fn(T) -> bool) -> Option<int> {
    if exists|i: int| is_first(rows, wanted, i) {
        Some(choose|i: int| is_first(rows, wanted, i))
    } else {
        None
    }
}

/// Whether some row is wanted.
pub open spec fn any<T>(rows: Seq<T>, wanted: spec_fn(T) -> bool) -> bool {
    exists|j: int| 0 <= j < rows.len() && wanted(#[trigger] rows[j])
}

/// The first wanted row is found at `i` where `rows[i]` is wanted and no
/// row before it is.
pub proof fn lemma_first_found<T>(rows: Seq<T>, wanted: spec_fn(T) -> bool, i: int)
    requires
        is_first(rows, wanted, i),
    ensures
        first_index(rows, wanted) == Some(i),
        any(rows, wanted),
{
    let k = choose|k: int| is_first(rows, wanted, k);
    if k < i {
        assert(!wanted(rows[k]));
    } else if i < k {
        assert(!wanted(rows[i]));
    }
}

/// No row is found where none is wanted.
pub proof fn lemma_none_found<T>(rows: Seq<T>, wanted: spec_fn(T) -> bool)
    requires
        forall|j: int| 0 <= j < rows.len() ==> !wanted(#[trigger] rows[j]),
    ensures
        first_index(rows, wanted) is None,
        !any(rows, wanted),
{
    assert forall|i: int| !is_first(rows, wanted, i) by {
        if is_first(rows, wanted, i) {
            assert(!wanted(rows[i]));
        }
    }
}

/// What is found is in range, wanted, and the first such; and something is
/// found exactly where some row is wanted.
pub proof fn lemma_first_index<T>(rows: Seq<T>, wanted: spec_fn(T) -> bool)
    ensures
        first_index(rows, wanted) matches Some(i) ==> is_first(rows, wanted, i),
        first_index(rows, wanted) is Some <==> any(rows, wanted),
{
    if any(rows, wanted) {
        let j = choose|j: int| 0 <= j < rows.len() && wanted(#[trigger] rows[j]);
        lemma_first_exists(rows, wanted, j);
    }
    if let Some(i) = first_index(rows, wanted) {
        assert(wanted(rows[i]));
    }
}

proof fn lemma_first_exists<T>(rows: Seq<T>, wanted: spec_fn(T) -> bool, j: int)
    requires
        0 <= j < rows.len(),
        wanted(rows[j]),
    ensures
        exists|i: int| is_first(rows, wanted, i),
    decreases j,
{
    if exists|k: int| 0 <= k < j && wanted(#[trigger] rows[k]) {
        let k = choose|k: int| 0 <= k < j && wanted(#[trigger] rows[k]);
        lemma_first_exists(rows, wanted, k);
    } else {
        assert(is_first(rows, wanted, j));
    }
}

/// The rows that are kept, in their order. Deleting the others leaves
/// these.
pub open spec fn kept<T>(rows: Seq<T>, keep: spec_fn(T) -> bool) -> Seq<T> {
    rows.filter(keep)
}

/// Keeping rows one at a time: the rows kept of `rows` with one more row are
/// those kept of `rows`, and the new row where it is kept.
pub proof fn lemma_kept_push<T>(rows: Seq<T>, keep: spec_fn(T) -> bool, row: T)
    ensures
        kept(rows.push(row), keep) == if keep(row) {
            kept(rows, keep).push(row)
        } else {
            kept(rows, keep)
        },
{
    reveal(Seq::filter);
    assert(rows.push(row).drop_last() =~= rows);
}

/// Every row kept is a row wanted to keep and was among the rows, every
/// row wanted to keep is kept, and no more rows are kept than there were.
pub proof fn lemma_kept_members<T>(rows: Seq<T>, keep: spec_fn(T) -> bool)
    ensures
        forall|i: int|
            0 <= i < kept(rows, keep).len() ==> keep(#[trigger] kept(rows, keep)[i])
                && rows.contains(kept(rows, keep)[i]),
        forall|j: int|
            0 <= j < rows.len() && keep(#[trigger] rows[j]) ==> kept(rows, keep).contains(rows[j]),
        kept(rows, keep).len() <= rows.len(),
    decreases rows.len(),
{
    if rows.len() == 0 {
        reveal(Seq::filter);
    } else {
        let front = rows.drop_last();
        let last = rows.last();
        lemma_kept_members(front, keep);
        lemma_kept_push(front, keep, last);
        assert(front.push(last) =~= rows);
        let out = kept(rows, keep);
        assert forall|i: int| 0 <= i < out.len() implies keep(#[trigger] out[i]) && rows.contains(
            out[i],
        ) by {
            if i < kept(front, keep).len() {
                let x = kept(front, keep)[i];
                assert(front.contains(x));
                let k = choose|k: int| 0 <= k < front.len() && front[k] == x;
                assert(rows[k] == x);
            } else {
                assert(rows[rows.len() - 1] == out[i]);
            }
        }
        assert forall|j: int| 0 <= j < rows.len() && keep(#[trigger] rows[j]) implies out.contains(
            rows[j],
        ) by {
            if j < front.len() {
                assert(keep(front[j]));
                let k = choose|k: int|
                    0 <= k < kept(front, keep).len() && kept(front, keep)[k] == front[j];
                assert(out[k] == rows[j]);
            } else {
                assert(out[out.len() - 1] == rows[j]);
            }
        }
    }
}

/// Whether the keys of the rows grow along the table.
pub open spec fn ascending<T>(rows: Seq<T>, key: spec_fn(T) -> int) -> bool {
    forall|i: int, j: int| 0 <= i < j < rows.len() ==> key(rows[i]) < key(rows[j])
}

/// Deleting rows leaves the others in their order: where the keys grew
/// along the table, they still do.
pub proof fn lemma_kept_ascending<T>(
    rows: Seq<T>,
    keep: spec_fn(T) -> bool,
    key: spec_fn(T) -> int,
)
    requires
        ascending(rows, key),
    ensures
        ascending(kept(rows, keep), key),
    decreases rows.len(),
{
    if rows.len() == 0 {
        reveal(Seq::filter);
    } else {
        let front = rows.drop_last();
        let last = rows.last();
        assert(front.push(last) =~= rows);
        assert(ascending(front, key)) by {
            assert forall|i: int, j: int| 0 <= i < j < front.len() implies key(front[i]) < key(
                front[j],
            ) by {
                assert(front[i] == rows[i] && front[j] == rows[j]);
            }
        }
        lemma_kept_ascending(front, keep, key);
        lemma_kept_push(front, keep, last);
        lemma_kept_members(front, keep);
        let out = kept(rows, keep);
        assert forall|i: int, j: int| 0 <= i < j < out.len() implies key(out[i]) < key(out[j]) by {
            if j == kept(front, keep).len() {
                let x = kept(front, keep)[i];
                assert(front.contains(x));
                let k = choose|k: int| 0 <= k < front.len() && front[k] == x;
                assert(rows[k] == x);
                assert(rows[rows.len() - 1] == out[j]);
            }
        }
    }
}

/// Whether the identities of the rows, read by `key`, grow along the table
/// and stay below `next`, the one to be given next: no two rows then share
/// an identity.
pub open spec fn ids_in_order<T>(rows: Seq<T>, key: spec_fn(T) -> int, next: int) -> bool {
    &&& ascending(rows, key)
    &&& forall|i: int| 0 <= i < rows.len() ==> key(#[trigger] rows[i]) < next
}

/// A row that takes the next identity keeps the table in order.
pub proof fn lemma_ids_push<T>(rows: Seq<T>, key: spec_fn(T) -> int, next: int, row: T, after: int)
    requires
        ids_in_order(rows, key, next),
        next <= key(row) < after,
    ensures
        ids_in_order(rows.push(row), key, after),
{
    let out = rows.push(row);
    assert forall|i: int, j: int| 0 <= i < j < out.len() implies key(out[i]) < key(out[j]) by {
        assert(out[i] == rows[i]);
        if j < rows.len() {
            assert(out[j] == rows[j]);
        }
    }
    assert forall|i: int| 0 <= i < out.len() implies key(#[trigger] out[i]) < after by {
        if i < rows.len() {
            assert(out[i] == rows[i]);
        }
    }
}

/// A row that changes but keeps its identity keeps the table in order.
pub proof fn lemma_ids_update<T>(rows: Seq<T>, key: spec_fn(T) -> int, next: int, at: int, row: T)
    requires
        ids_in_order(rows, key, next),
        0 <= at < rows.len(),
        key(row) == key(rows[at]),
    ensures
        ids_in_order(rows.update(at, row), key, next),
{
    let out = rows.update(at, row);
    assert forall|i: int, j: int| 0 <= i < j < out.len() implies key(out[i]) < key(out[j]) by {
        assert(key(out[i]) == key(rows[i]));
        assert(key(out[j]) == key(rows[j]));
    }
    assert forall|i: int| 0 <= i < out.len() implies key(#[trigger] out[i]) < next by {
        assert(key(out[i]) == key(rows[i]));
    }
}

/// Deleting rows keeps the table in order.
pub proof fn lemma_ids_kept<T>(
    rows: Seq<T>,
    key: spec_fn(T) -> int,
    next: int,
    keep: spec_fn(T) -> bool,
)
    requires
        ids_in_order(rows, key, next),
    ensures
        ids_in_order(kept(rows, keep), key, next),
{
    lemma_kept_ascending(rows, keep, key);
    lemma_kept_members(rows, keep);
    let out = kept(rows, keep);
    assert forall|i: int| 0 <= i < out.len() implies key(#[trigger] out[i]) < next by {
        assert(rows.contains(out[i]));
        let k = choose|k: int| 0 <= k < rows.len() && rows[k] == out[i];
        assert(key(rows[k]) < next);
    }
}

/// Deleting one row keeps the table in order.
pub proof fn lemma_ids_remove<T>(rows: Seq<T>, key: spec_fn(T) -> int, next: int, at: int)
    requires
        ids_in_order(rows, key, next),
        0 <= at < rows.len(),
    ensures
        ids_in_order(rows.remove(at), key, next),
{
    let out = rows.remove(at);
    assert forall|i: int, j: int| 0 <= i < j < out.len() implies key(out[i]) < key(out[j]) by {
        let i0 = if i < at {
            i
        } else {
            i + 1
        };
        let j0 = if j < at {
            j
        } else {
            j + 1
        };
        assert(out[i] == rows[i0] && out[j] == rows[j0]);
    }
    assert forall|i: int| 0 <= i < out.len() implies key(#[trigger] out[i]) < next by {
        let i0 = if i < at {
            i
        } else {
            i + 1
        };
        assert(out[i] == rows[i0]);
    }
}

/// Rows that take the next identities, in order, keep the table in order.
pub proof fn lemma_ids_append<T>(
    rows: Seq<T>,
    key: spec_fn(T) -> int,
    next: int,
    more: Seq<T>,
)
    requires
        ids_in_order(rows, key, next),
        forall|i: int| 0 <= i < more.len() ==> key(#[trigger] more[i]) == next + i,
    ensures
        ids_in_order(rows + more, key, next + more.len()),
{
    let out = rows + more;
    assert forall|i: int, j: int| 0 <= i < j < out.len() implies key(out[i]) < key(out[j]) by {
        if i < rows.len() {
            assert(out[i] == rows[i]);
        } else {
            assert(out[i] == more[i - rows.len()]);
        }
        if j < rows.len() {
            assert(out[j] == rows[j]);
        } else {
            assert(out[j] == more[j - rows.len()]);
        }
    }
    assert forall|i: int| 0 <= i < out.len() implies key(#[trigger] out[i]) < next + more.len() by {
        if i < rows.len() {
            assert(out[i] == rows[i]);
        } else {
            assert(out[i] == more[i - rows.len()]);
        }
    }
}

/// A table while rows are deleted from it in place, front to back: of the
/// first `done` rows those kept, then the rows not yet looked at.
pub open spec fn sifted<T>(rows: Seq<T>, keep: spec_fn(T) -> bool, done: int) -> Seq<T> {
    kept(rows.take(done), keep) + rows.skip(done)
}

/// Before any row was looked at the table is whole and nothing is kept yet.
pub proof fn lemma_sift_start<T>(rows: Seq<T>, keep: spec_fn(T) -> bool)
    ensures
        sifted(rows, keep, 0) == rows,
        kept(rows.take(0), keep).len() == 0,
{
    reveal(Seq::filter);
    assert(rows.take(0) =~= Seq::<T>::empty());
    assert(sifted(rows, keep, 0) =~= rows);
}

/// Looking at one more row: it stands right behind the rows kept so far,
/// and either stays there or is deleted from there.
pub proof fn lemma_sift_step<T>(rows: Seq<T>, keep: spec_fn(T) -> bool, done: int)
    requires
        0 <= done < rows.len(),
    ensures
        sifted(rows, keep, done).len() == kept(rows.take(done), keep).len() + rows.len() - done,
        sifted(rows, keep, done)[kept(rows.take(done), keep).len() as int] == rows[done],
        kept(rows.take(done + 1), keep) == if keep(rows[done]) {
            kept(rows.take(done), keep).push(rows[done])
        } else {
            kept(rows.take(done), keep)
        },
        sifted(rows, keep, done + 1) == if keep(rows[done]) {
            sifted(rows, keep, done)
        } else {
            sifted(rows, keep, done).remove(kept(rows.take(done), keep).len() as int)
        },
{
    lemma_kept_push(rows.take(done), keep, rows[done]);
    assert(rows.take(done).push(rows[done]) =~= rows.take(done + 1));
    let at = kept(rows.take(done), keep).len() as int;
    if keep(rows[done]) {
        assert(sifted(rows, keep, done + 1) =~= sifted(rows, keep, done));
    } else {
        assert(sifted(rows, keep, done + 1) =~= sifted(rows, keep, done).remove(at));
    }
}

/// When every row was looked at, the rows kept are left.
pub proof fn lemma_sift_end<T>(rows: Seq<T>, keep: spec_fn(T) -> bool)
    ensures
        sifted(rows, keep, rows.len() as int) == kept(rows, keep),
{
    assert(rows.take(rows.len() as int) =~= rows);
    assert(sifted(rows, keep, rows.len() as int) =~= kept(rows, keep));
}

/// The rows kept of two tables joined are those kept of each, joined.
pub proof fn lemma_kept_concat<T>(front: Seq<T>, back: Seq<T>, keep: spec_fn(T) -> bool)
    ensures
        kept(front + back, keep) == kept(front, keep) + kept(back, keep),
    decreases back.len(),
{
    if back.len() == 0 {
        reveal(Seq::filter);
        assert(front + back =~= front);
        assert(kept(front, keep) + kept(back, keep) =~= kept(front, keep));
    } else {
        let shorter = back.drop_last();
        lemma_kept_concat(front, shorter, keep);
        lemma_kept_push(front + shorter, keep, back.last());
        lemma_kept_push(shorter, keep, back.last());
        assert((front + shorter).push(back.last()) =~= front + back);
        assert(shorter.push(back.last()) =~= back);
        if keep(back.last()) {
            assert((kept(front, keep) + kept(shorter, keep)).push(back.last()) =~= kept(
                front,
                keep,
            ) + kept(shorter, keep).push(back.last()));
        }
    }
}

/// Where every row is to be kept, all are.
pub proof fn lemma_kept_all<T>(rows: Seq<T>, keep: spec_fn(T) -> bool)
    requires
        forall|i: int| 0 <= i < rows.len() ==> keep(#[trigger] rows[i]),
    ensures
        kept(rows, keep) == rows,
    decreases rows.len(),
{
    if rows.len() == 0 {
        reveal(Seq::filter);
        assert(kept(rows, keep) =~= rows);
    } else {
        let front = rows.drop_last();
        assert forall|i: int| 0 <= i < front.len() implies keep(#[trigger] front[i]) by {
            assert(front[i] == rows[i]);
        }
        lemma_kept_all(front, keep);
        lemma_kept_push(front, keep, rows.last());
        assert(front.push(rows.last()) =~= rows);
    }
}

/// Where no row is to be kept, none is.
pub proof fn lemma_kept_none<T>(rows: Seq<T>, keep: spec_fn(T) -> bool)
    requires
        forall|i: int| 0 <= i < rows.len() ==> !keep(#[trigger] rows[i]),
    ensures
        kept(rows, keep).len() == 0,
    decreases rows.len(),
{
    if rows.len() == 0 {
        reveal(Seq::filter);
    } else {
        let front = rows.drop_last();
        assert forall|i: int| 0 <= i < front.len() implies !keep(#[trigger] front[i]) by {
            assert(front[i] == rows[i]);
        }
        lemma_kept_none(front, keep);
        lemma_kept_push(front, keep, rows.last());
        assert(front.push(rows.last()) =~= rows);
    }
}

/// Keeping rows in two rounds: where the second round keeps only rows that
/// the first keeps too, the first round makes no difference.
pub proof fn lemma_kept_twice<T>(
    rows: Seq<T>,
    first: spec_fn(T) -> bool,
    second: spec_fn(T) -> bool,
)
    requires
        forall|i: int| 0 <= i < rows.len() && second(#[trigger] rows[i]) ==> first(rows[i]),
    ensures
        kept(kept(rows, first), second) == kept(rows, second),
    decreases rows.len(),
{
    if rows.len() == 0 {
        reveal(Seq::filter);
        assert(kept(rows, first) =~= rows);
    } else {
        let front = rows.drop_last();
        assert forall|i: int| 0 <= i < front.len() && second(#[trigger] front[i]) implies first(
            front[i],
        ) by {
            assert(front[i] == rows[i]);
        }
        lemma_kept_twice(front, first, second);
        lemma_kept_push(front, first, rows.last());
        lemma_kept_push(front, second, rows.last());
        lemma_kept_push(kept(front, first), second, rows.last());
        assert(front.push(rows.last()) =~= rows);
        assert(rows[rows.len() - 1] == rows.last());
    }
}

/// The rows kept and the rows not kept are all the rows.
pub proof fn lemma_kept_split<T>(
    rows: Seq<T>,
    keep: spec_fn(T) -> bool,
    others: spec_fn(T) -> bool,
)
    requires
        forall|i: int| 0 <= i < rows.len() ==> (keep(#[trigger] rows[i]) <==> !others(rows[i])),
    ensures
        kept(rows, keep).len() + kept(rows, others).len() == rows.len(),
    decreases rows.len(),
{
    if rows.len() == 0 {
        reveal(Seq::filter);
    } else {
        let front = rows.drop_last();
        assert forall|i: int| 0 <= i < front.len() implies (keep(#[trigger] front[i]) <==> !others(
            front[i],
        )) by {
            assert(front[i] == rows[i]);
        }
        lemma_kept_split(front, keep, others);
        lemma_kept_push(front, keep, rows.last());
        lemma_kept_push(front, others, rows.last());
        assert(front.push(rows.last()) =~= rows);
        assert(rows[rows.len() - 1] == rows.last());
    }
}

} // verus!
