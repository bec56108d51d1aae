//! Lists of rows for display: the most recent first, and page by page.

use crate::table::Row;
use vstd::prelude::*;

verus! {

/// Rows that carry the time at which they were made.
pub trait Dated: Row {
    /// The time at which the row was made, in seconds since the Unix epoch.
    spec fn date(&self) -> i64;

    /// The time at which the row was made.
    fn stamp(&self) -> (secs: i64)
        ensures
            secs == self.date(),
    ;
}

/// Where a row goes in a list that has the most recent rows first: behind
/// the rows that are as recent as it or more.
pub open spec fn place_for<T: Dated>(sorted: Seq<T>, row: T) -> int
    decreases sorted.len(),
{
    if sorted.len() == 0 {
        0
    } else if sorted.last().date() >= row.date() {
        sorted.len() as int
    } else {
        place_for(sorted.drop_last(), row)
    }
}

/// Rows with the most recent first. Rows of the same time keep their
/// order.
pub open spec fn recent_first<T: Dated>(rows: Seq<T>) -> Seq<T>
    decreases rows.len(),
{
    if rows.len() == 0 {
        Seq::empty()
    } else {
        let sorted = recent_first(rows.drop_last());
        sorted.insert(place_for(sorted, rows.last()), rows.last())
    }
}

/// Whether no row of a list is more recent than a row before it.
pub open spec fn descending<T: Dated>(rows: Seq<T>) -> bool {
    forall|i: int, j: int| 0 <= i <= j < rows.len() ==> rows[i].date() >= rows[j].date()
}

/// The place for a row lies within the list; the rows before it are as
/// recent as the row or more, the rows from it on are older.
pub proof fn lemma_place_for<T: Dated>(sorted: Seq<T>, row: T)
    requires
        descending(sorted),
    ensures
        0 <= place_for(sorted, row) <= sorted.len(),
        forall|i: int| 0 <= i < place_for(sorted, row) ==> sorted[i].date() >= row.date(),
        forall|i: int| place_for(sorted, row) <= i < sorted.len() ==> sorted[i].date() < row.date(),
    decreases sorted.len(),
{
    if sorted.len() > 0 {
        if sorted.last().date() >= row.date() {
            assert forall|i: int| 0 <= i < sorted.len() implies sorted[i].date() >= row.date() by {
                assert(sorted[i].date() >= sorted[sorted.len() - 1].date());
            }
        } else {
            let shorter = sorted.drop_last();
            assert forall|i: int, j: int| 0 <= i <= j < shorter.len() implies shorter[i].date()
                >= shorter[j].date() by {
                assert(shorter[i] == sorted[i] && shorter[j] == sorted[j]);
            }
            lemma_place_for(shorter, row);
            assert forall|i: int| 0 <= i < place_for(sorted, row) implies sorted[i].date()
                >= row.date() by {
                assert(shorter[i] == sorted[i]);
            }
            assert forall|i: int| place_for(sorted, row) <= i < sorted.len() implies sorted[i].date()
                < row.date() by {
                if i < shorter.len() {
                    assert(shorter[i] == sorted[i]);
                }
            }
        }
    }
}

/// The most recent rows come first, and the list holds the same rows as
/// before, each as often.
pub proof fn lemma_recent_first<T: Dated>(rows: Seq<T>)
    ensures
        descending(recent_first(rows)),
        recent_first(rows).len() == rows.len(),
        recent_first(rows).to_multiset() == rows.to_multiset(),
    decreases rows.len(),
{
    broadcast use vstd::seq_lib::group_to_multiset_ensures;

    if rows.len() > 0 {
        let shorter = rows.drop_last();
        let sorted = recent_first(shorter);
        let row = rows.last();
        lemma_recent_first(shorter);
        lemma_place_for(sorted, row);
        let at = place_for(sorted, row);
        let all = sorted.insert(at, row);
        assert forall|i: int, j: int| 0 <= i <= j < all.len() implies all[i].date()
            >= all[j].date() by {
            if i < at && j > at {
                assert(all[i] == sorted[i] && all[j] == sorted[j - 1]);
            } else if i > at {
                assert(all[i] == sorted[i - 1] && all[j] == sorted[j - 1]);
            } else if j < at {
                assert(all[i] == sorted[i] && all[j] == sorted[j]);
            }
        }
        assert(rows =~= shorter.push(row));
        assert(all.remove(at) =~= sorted);
        assert(all[at] == row);
        vstd::seq_lib::to_multiset_remove(all, at);
        assert(all.contains(row));
        all.to_multiset_ensures();
        shorter.to_multiset_ensures();
        assert(all.to_multiset() =~= sorted.to_multiset().insert(row));
    }
}

/// Put rows in order, the most recent first.
pub fn sort_recent<T: Dated>(rows: &Vec<T>) -> (sorted: Vec<T>)
    ensures
        sorted@ == recent_first(rows@),
{
    let mut sorted: Vec<T> = Vec::new();
    let mut done: usize = 0;
    assert(rows@.take(0) =~= Seq::empty());
    while done < rows.len()
        invariant
            done <= rows@.len(),
            sorted@ == recent_first(rows@.take(done as int)),
        decreases rows@.len() - done,
    {
        let row = rows[done].copy();
        let mut at: usize = sorted.len();
        assert(sorted@.take(at as int) =~= sorted@);
        while at > 0 && sorted[at - 1].stamp() < row.stamp()
            invariant
                at <= sorted@.len(),
                place_for(sorted@, row) == place_for(sorted@.take(at as int), row),
            decreases at,
        {
            assert(sorted@.take(at as int).drop_last() =~= sorted@.take(at - 1));
            assert(sorted@.take(at as int).last() == sorted@[at - 1]);
            at -= 1;
        }
        proof {
            if at > 0 {
                assert(sorted@.take(at as int).last() == sorted@[at - 1]);
            }
            assert(sorted@.take(at as int).len() == at);
            assert(rows@.take(done + 1).drop_last() =~= rows@.take(done as int));
            assert(rows@.take(done + 1).last() == row);
        }
        sorted.insert(at, row);
        done += 1;
    }
    assert(rows@.take(rows@.len() as int) =~= rows@);
    sorted
}

/// How many rows a limit lets through.
pub open spec fn allowed(limit: i64, length: int) -> int {
    if limit <= 0 {
        0
    } else if limit >= length {
        length
    } else {
        limit as int
    }
}

/// The first rows of a list, up to a limit. A limit that is not positive
/// lets nothing through.
pub open spec fn limited<T>(rows: Seq<T>, limit: i64) -> Seq<T> {
    rows.take(allowed(limit, rows.len() as int))
}

/// The rows of a page: those from the place `min` up to the place before
/// `max`, as far as there are any. Places below zero count as zero.
pub open spec fn page_of<T>(rows: Seq<T>, min: i32, max: i32) -> Seq<T> {
    let start = if min < 0 {
        0int
    } else if min >= rows.len() {
        rows.len() as int
    } else {
        min as int
    };
    let wanted = if max - min < 0 {
        0int
    } else {
        max - min
    };
    let end = if start + wanted >= rows.len() {
        rows.len() as int
    } else {
        start + wanted
    };
    rows.subrange(start, end)
}

/// Copies of the rows from one place up to another.
fn copy_range<T: Row>(rows: &Vec<T>, start: usize, end: usize) -> (copied: Vec<T>)
    requires
        start <= end <= rows@.len(),
    ensures
        copied@ == rows@.subrange(start as int, end as int),
{
    let mut copied: Vec<T> = Vec::new();
    let mut i: usize = start;
    while i < end
        invariant
            start <= i <= end <= rows@.len(),
            copied@ == rows@.subrange(start as int, i as int),
        decreases end - i,
    {
        copied.push(rows[i].copy());
        assert(rows@.subrange(start as int, i + 1) =~= rows@.subrange(start as int, i as int).push(
            rows@[i as int],
        ));
        i += 1;
    }
    copied
}

/// The first rows of a list, up to a limit.
pub fn limit_to<T: Row>(rows: &Vec<T>, limit: i64) -> (first: Vec<T>)
    ensures
        first@ == limited(rows@, limit),
{
    let end = if limit <= 0 {
        0
    } else if (limit as u64) >= (rows.len() as u64) {
        rows.len()
    } else {
        limit as usize
    };
    copy_range(rows, 0, end)
}

/// The rows of a page.
pub fn page<T: Row>(rows: &Vec<T>, min: i32, max: i32) -> (shown: Vec<T>)
    ensures
        shown@ == page_of(rows@, min, max),
{
    let length = rows.len();
    let start: usize = if min < 0 {
        0
    } else if (min as u64) >= (length as u64) {
        length
    } else {
        min as usize
    };
    let wanted: u64 = if (max as i64) - (min as i64) < 0 {
        0
    } else {
        ((max as i64) - (min as i64)) as u64
    };
    let end: usize = if wanted >= (length - start) as u64 {
        length
    } else {
        start + (wanted as usize)
    };
    copy_range(rows, start, end)
}

/// A count as a signed number: the largest one where the count is beyond
/// it.
pub open spec fn counted(number: int) -> i64 {
    if number > i64::MAX {
        i64::MAX
    } else {
        number as i64
    }
}

/// A count as a signed number.
pub fn count_of(number: usize) -> (count: i64)
    ensures
        count == counted(number as int),
{
    if (number as u64) > (i64::MAX as u64) {
        i64::MAX
    } else {
        number as i64
    }
}

} // verus!
