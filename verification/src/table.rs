use vstd::prelude::*;

verus! {

/// The first record whose key equals `id`, scanning left to right; the
/// behaviour of a lookup on a table keyed by an integer column.
pub open spec fn find_by<T>(rows: Seq<T>, key: spec_fn(T) -> int, id: int) -> Option<T>
    decreases rows.len(),
{
    if rows.len() == 0 {
        None
    } else if key(rows[0]) == id {
        Some(rows[0])
    } else {
        find_by(rows.drop_first(), key, id)
    }
}

/// The rows with the first record whose key equals `id` removed; the rows
/// unchanged when no key matches.
pub open spec fn remove_by<T>(rows: Seq<T>, key: spec_fn(T) -> int, id: int) -> Seq<T>
    decreases rows.len(),
{
    if rows.len() == 0 {
        rows
    } else if key(rows[0]) == id {
        rows.drop_first()
    } else {
        seq![rows[0]] + remove_by(rows.drop_first(), key, id)
    }
}

/// No record carries the key `id`.
pub open spec fn no_key<T>(rows: Seq<T>, key: spec_fn(T) -> int, id: int) -> bool {
    forall|i: int| 0 <= i < rows.len() ==> key(#[trigger] rows[i]) != id
}

/// All records carry distinct keys.
pub open spec fn unique_keys<T>(rows: Seq<T>, key: spec_fn(T) -> int) -> bool {
    forall|i: int, j: int|
        0 <= i < j < rows.len() ==> key(#[trigger] rows[i]) != key(#[trigger] rows[j])
}

/// A lookup on rows without the key finds nothing.
pub proof fn lemma_find_by_none<T>(rows: Seq<T>, key: spec_fn(T) -> int, id: int)
    requires
        no_key(rows, key, id),
    ensures
        find_by(rows, key, id) is None,
    decreases rows.len(),
{
    if rows.len() > 0 {
        assert(key(rows[0]) != id);
        assert(no_key(rows.drop_first(), key, id)) by {
            assert(forall|i: int|
                0 <= i < rows.drop_first().len() ==> #[trigger] rows.drop_first()[i] == rows[i
                    + 1]);
        }
        lemma_find_by_none(rows.drop_first(), key, id);
    }
}

/// A lookup finds exactly the record at the first matching position.
pub proof fn lemma_find_by_at<T>(rows: Seq<T>, key: spec_fn(T) -> int, id: int, i: int)
    requires
        0 <= i < rows.len(),
        key(rows[i]) == id,
        forall|k: int| 0 <= k < i ==> key(#[trigger] rows[k]) != id,
    ensures
        find_by(rows, key, id) == Some(rows[i]),
    decreases i,
{
    if i == 0 {
    } else {
        assert(key(rows[0]) != id);
        assert(rows.drop_first()[i - 1] == rows[i]);
        assert(forall|k: int|
            0 <= k < i - 1 ==> #[trigger] rows.drop_first()[k] == rows[k + 1]);
        lemma_find_by_at(rows.drop_first(), key, id, i - 1);
    }
}

/// A successful lookup returns a record of the rows, carrying the key.
pub proof fn lemma_find_by_some<T>(rows: Seq<T>, key: spec_fn(T) -> int, id: int)
    requires
        find_by(rows, key, id) is Some,
    ensures
        exists|i: int|
            0 <= i < rows.len() && #[trigger] rows[i] == find_by(rows, key, id)->Some_0 && key(
                rows[i]) == id,
    decreases rows.len(),
{
    if rows.len() == 0 {
    } else if key(rows[0]) == id {
        assert(rows[0] == find_by(rows, key, id)->Some_0);
    } else {
        lemma_find_by_some(rows.drop_first(), key, id);
        let j = choose|i: int|
            0 <= i < rows.drop_first().len() && #[trigger] rows.drop_first()[i] == find_by(
                rows.drop_first(),
                key,
                id,
            )->Some_0 && key(rows.drop_first()[i]) == id;
        assert(rows[j + 1] == rows.drop_first()[j]);
    }
}

/// Removal on rows without the key leaves the rows unchanged.
pub proof fn lemma_remove_by_absent<T>(rows: Seq<T>, key: spec_fn(T) -> int, id: int)
    requires
        no_key(rows, key, id),
    ensures
        remove_by(rows, key, id) == rows,
    decreases rows.len(),
{
    if rows.len() > 0 {
        assert(key(rows[0]) != id);
        assert(no_key(rows.drop_first(), key, id)) by {
            assert(forall|i: int|
                0 <= i < rows.drop_first().len() ==> #[trigger] rows.drop_first()[i] == rows[i
                    + 1]);
        }
        lemma_remove_by_absent(rows.drop_first(), key, id);
        assert(seq![rows[0]] + rows.drop_first() =~= rows);
    }
}

/// Removal takes out exactly the record at the first matching position.
pub proof fn lemma_remove_by_at<T>(rows: Seq<T>, key: spec_fn(T) -> int, id: int, i: int)
    requires
        0 <= i < rows.len(),
        key(rows[i]) == id,
        forall|k: int| 0 <= k < i ==> key(#[trigger] rows[k]) != id,
    ensures
        remove_by(rows, key, id) == rows.remove(i),
    decreases i,
{
    if i == 0 {
        assert(rows.drop_first() =~= rows.remove(0));
    } else {
        assert(key(rows[0]) != id);
        assert(rows.drop_first()[i - 1] == rows[i]);
        assert(forall|k: int|
            0 <= k < i - 1 ==> #[trigger] rows.drop_first()[k] == rows[k + 1]);
        lemma_remove_by_at(rows.drop_first(), key, id, i - 1);
        assert(seq![rows[0]] + rows.drop_first().remove(i - 1) =~= rows.remove(i));
    }
}

} // verus!
