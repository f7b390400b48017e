//! The point counter: how many cutoffs of an ascending table a value exceeds.

use vstd::prelude::*;

verus! {

/// A table is ascending when no entry is smaller than an earlier one; equal
/// neighbours (plateaus) are allowed.
pub open spec fn ascending(table: Seq<i64>) -> bool {
    forall|i: int, j: int| 0 <= i <= j < table.len() ==> table[i] <= table[j]
}

/// The number of entries of `table` that are strictly less than `value`: the
/// length of what is left of the table when only those entries are kept.
pub open spec fn count_below(table: Seq<i64>, value: int) -> nat {
    table.filter(|entry: i64| entry < value).len()
}

/// An empty table counts nothing.
pub proof fn lemma_count_of_empty(table: Seq<i64>, value: int)
    requires
        table.len() == 0,
    ensures
        count_below(table, value) == 0,
{
    reveal(Seq::filter);
}

/// The last entry adds one to the count of the entries before it if it is below
/// `value`, and nothing otherwise.
pub proof fn lemma_count_of_last(table: Seq<i64>, value: int)
    requires
        table.len() > 0,
    ensures
        table.last() < value ==> count_below(table, value) == count_below(table.drop_last(), value)
            + 1,
        table.last() >= value ==> count_below(table, value) == count_below(
            table.drop_last(),
            value,
        ),
{
    reveal(Seq::filter);
}

/// Where the entries before `split` are below `value` and the others are not,
/// `split` is the count.
pub proof fn lemma_count_at_split(table: Seq<i64>, value: int, split: int)
    requires
        0 <= split <= table.len(),
        forall|i: int| 0 <= i < split ==> table[i] < value,
        forall|i: int| split <= i < table.len() ==> table[i] >= value,
    ensures
        count_below(table, value) == split,
    decreases table.len(),
{
    if table.len() == 0 {
        lemma_count_of_empty(table, value);
    } else {
        lemma_count_of_last(table, value);
        if split == table.len() {
            lemma_count_at_split(table.drop_last(), value, split - 1);
        } else {
            lemma_count_at_split(table.drop_last(), value, split);
        }
    }
}

/// The count never exceeds the table's length.
pub proof fn lemma_count_bounded(table: Seq<i64>, value: int)
    ensures
        count_below(table, value) <= table.len(),
{
    table.lemma_filter_len(|entry: i64| entry < value);
}

/// The count does not decrease when the value grows, whatever the table.
pub proof fn lemma_count_monotonic(table: Seq<i64>, low: int, high: int)
    requires
        low <= high,
    ensures
        count_below(table, low) <= count_below(table, high),
    decreases table.len(),
{
    if table.len() == 0 {
        lemma_count_of_empty(table, low);
        lemma_count_of_empty(table, high);
    } else {
        lemma_count_of_last(table, low);
        lemma_count_of_last(table, high);
        lemma_count_monotonic(table.drop_last(), low, high);
    }
}

/// Two values that the same entries are below have the same count.
pub proof fn lemma_count_agrees(table: Seq<i64>, first: int, second: int)
    requires
        forall|i: int| 0 <= i < table.len() ==> (table[i] < first <==> table[i] < second),
    ensures
        count_below(table, first) == count_below(table, second),
    decreases table.len(),
{
    if table.len() == 0 {
        lemma_count_of_empty(table, first);
        lemma_count_of_empty(table, second);
    } else {
        lemma_count_of_last(table, first);
        lemma_count_of_last(table, second);
        lemma_count_agrees(table.drop_last(), first, second);
    }
}

/// A value that is not above the table's minimum, that is above none of its
/// entries, counts nothing.
pub proof fn lemma_count_at_minimum(table: Seq<i64>, value: int)
    requires
        forall|i: int| 0 <= i < table.len() ==> value <= table[i],
    ensures
        count_below(table, value) == 0,
{
    lemma_count_at_split(table, value, 0);
}

/// A value above the table's maximum, that is above all of its entries, counts
/// every entry.
pub proof fn lemma_count_above_maximum(table: Seq<i64>, value: int)
    requires
        forall|i: int| 0 <= i < table.len() ==> table[i] < value,
    ensures
        count_below(table, value) == table.len(),
{
    lemma_count_at_split(table, value, table.len() as int);
}

/// Tells whether `arr` is ascending.
pub fn is_ascending(arr: &[i64]) -> (ok: bool)
    ensures
        ok == ascending(arr@),
{
    let mut i: usize = 1;
    while i < arr.len()
        invariant
            1 <= i,
            forall|a: int, b: int| 0 <= a <= b < i && b < arr.len() ==> arr[a] <= arr[b],
        decreases arr.len() - i,
    {
        if arr[i - 1] > arr[i] {
            return false;
        }
        assert forall|a: int, b: int| 0 <= a <= b < i + 1 && b < arr.len() implies arr[a]
            <= arr[b] by {
            if b == i && a < i {
                assert(arr[a] <= arr[i - 1]);
            }
        }
        i = i + 1;
    }
    true
}

/// Counts the entries of the ascending table `arr` that are strictly less than
/// `value`: the position right after the last such entry, found from the high
/// end.
pub fn points(arr: &[i64], value: &i64) -> (idx: usize)
    requires
        ascending(arr@),
    ensures
        idx == count_below(arr@, *value as int),
        idx <= arr.len(),
        forall|i: int| 0 <= i < idx ==> arr[i] < *value,
        forall|i: int| idx <= i < arr.len() ==> arr[i] >= *value,
{
    let mut idx: usize = arr.len();
    while idx > 0 && arr[idx - 1] >= *value
        invariant
            idx <= arr.len(),
            forall|i: int| idx <= i < arr.len() ==> arr[i] >= *value,
        decreases idx,
    {
        idx = idx - 1;
    }
    proof {
        assert forall|i: int| 0 <= i < idx implies arr[i] < *value by {
            assert(arr[i] <= arr[idx - 1]);
        }
        lemma_count_at_split(arr@, *value as int, idx as int);
    }
    idx
}

} // verus!
