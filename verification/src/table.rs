//! Tables of rows: the model of what is persisted. A table keeps its rows in
//! the order in which they were added and hands out increasing identifiers.

use vstd::prelude::*;

verus! {

/// The first of the rows that is wanted, if any is.
pub open spec fn first_match<T>(rows: Seq<T>, wanted: spec_fn(T) -> bool) -> Option<T>
    decreases rows.len(),
{
    if rows.len() == 0 {
        None
    } else if wanted(rows[0]) {
        Some(rows[0])
    } else {
        first_match(rows.drop_first(), wanted)
    }
}

/// Where the first wanted row stands, if any is wanted.
pub open spec fn first_index<T>(rows: Seq<T>, wanted: spec_fn(T) -> bool) -> Option<int>
    decreases rows.len(),
{
    if rows.len() == 0 {
        None
    } else {
        match first_index(rows.drop_last(), wanted) {
            Some(at) => Some(at),
            None => if wanted(rows.last()) {
                Some(rows.len() - 1)
            } else {
                None
            },
        }
    }
}

/// The first index is that of a wanted row before which none is wanted;
/// there is none where no row is wanted.
pub proof fn lemma_first_index<T>(rows: Seq<T>, wanted: spec_fn(T) -> bool)
    ensures
        first_index(rows, wanted) matches Some(at) ==> 0 <= at < rows.len() && wanted(rows[at])
            && forall|j: int| 0 <= j < at ==> !wanted(#[trigger] rows[j]),
        first_index(rows, wanted) is None ==> forall|j: int|
            0 <= j < rows.len() ==> !wanted(#[trigger] rows[j]),
    decreases rows.len(),
{
    if rows.len() > 0 {
        let shorter = rows.drop_last();
        lemma_first_index(shorter, wanted);
        match first_index(shorter, wanted) {
            Some(at) => {
                assert(shorter[at] == rows[at]);
                assert forall|j: int| 0 <= j < at implies !wanted(#[trigger] rows[j]) by {
                    assert(shorter[j] == rows[j]);
                }
            },
            None => {
                assert forall|j: int| 0 <= j < rows.len() - 1 implies !wanted(
                    #[trigger] rows[j],
                ) by {
                    assert(shorter[j] == rows[j]);
                }
            },
        }
    }
}

/// The index of a wanted row before which none is wanted is the first
/// index.
pub proof fn lemma_first_index_at<T>(rows: Seq<T>, wanted: spec_fn(T) -> bool, at: int)
    requires
        0 <= at < rows.len(),
        wanted(rows[at]),
        forall|j: int| 0 <= j < at ==> !wanted(rows[j]),
    ensures
        first_index(rows, wanted) == Some(at),
{
    lemma_first_index(rows, wanted);
}

/// There is no first index where no row is wanted.
pub proof fn lemma_first_index_none<T>(rows: Seq<T>, wanted: spec_fn(T) -> bool)
    requires
        forall|j: int| 0 <= j < rows.len() ==> !wanted(rows[j]),
    ensures
        first_index(rows, wanted) is None,
{
    lemma_first_index(rows, wanted);
}

/// The first match is the wanted row before which none is wanted.
pub proof fn lemma_first_match_at<T>(rows: Seq<T>, wanted: spec_fn(T) -> bool, at: int)
    requires
        0 <= at < rows.len(),
        wanted(rows[at]),
        forall|j: int| 0 <= j < at ==> !wanted(rows[j]),
    ensures
        first_match(rows, wanted) == Some(rows[at]),
    decreases rows.len(),
{
    if at > 0 {
        let rest = rows.drop_first();
        assert(forall|j: int| 0 <= j < at - 1 ==> rest[j] == rows[j + 1]);
        lemma_first_match_at(rest, wanted, at - 1);
    }
}

/// There is no first match where no row is wanted.
pub proof fn lemma_first_match_none<T>(rows: Seq<T>, wanted: spec_fn(T) -> bool)
    requires
        forall|j: int| 0 <= j < rows.len() ==> !wanted(rows[j]),
    ensures
        first_match(rows, wanted) is None,
    decreases rows.len(),
{
    if rows.len() > 0 {
        let rest = rows.drop_first();
        assert(forall|j: int| 0 <= j < rest.len() ==> rest[j] == rows[j + 1]);
        lemma_first_match_none(rest, wanted);
    }
}

/// A first match is a wanted row of the table, and no row is wanted where
/// there is none.
pub proof fn lemma_first_match_sound<T>(rows: Seq<T>, wanted: spec_fn(T) -> bool)
    ensures
        first_match(rows, wanted) matches Some(row) ==> wanted(row) && rows.contains(row),
        first_match(rows, wanted) is None ==> forall|j: int|
            0 <= j < rows.len() ==> !wanted(#[trigger] rows[j]),
    decreases rows.len(),
{
    if rows.len() > 0 {
        let rest = rows.drop_first();
        lemma_first_match_sound(rest, wanted);
        if wanted(rows[0]) {
            assert(rows.contains(rows[0]));
        } else {
            if let Some(row) = first_match(rest, wanted) {
                let j = choose|j: int| 0 <= j < rest.len() && rest[j] == row;
                assert(rows[j + 1] == row);
            } else {
                assert forall|j: int| 0 <= j < rows.len() implies !wanted(#[trigger] rows[j]) by {
                    if j > 0 {
                        assert(rest[j - 1] == rows[j]);
                    }
                }
            }
        }
    }
}

/// Adding a row at the end changes the first match only where there was
/// none.
pub proof fn lemma_first_match_push<T>(rows: Seq<T>, wanted: spec_fn(T) -> bool, row: T)
    ensures
        first_match(rows.push(row), wanted) == match first_match(rows, wanted) {
            Some(found) => Some(found),
            None => if wanted(row) {
                Some(row)
            } else {
                None
            },
        },
    decreases rows.len(),
{
    if rows.len() == 0 {
        assert(rows.push(row).drop_first() =~= rows);
    } else {
        assert(rows.push(row).drop_first() =~= rows.drop_first().push(row));
        lemma_first_match_push(rows.drop_first(), wanted, row);
    }
}

/// The wanted rows among the first rows of a table, one row more at a time.
pub proof fn lemma_filter_step<T>(rows: Seq<T>, wanted: spec_fn(T) -> bool, upto: int)
    requires
        0 <= upto < rows.len(),
    ensures
        rows.take(upto + 1).filter(wanted) == if wanted(rows[upto]) {
            rows.take(upto).filter(wanted).push(rows[upto])
        } else {
            rows.take(upto).filter(wanted)
        },
{
    reveal(Seq::filter);
    assert(rows.take(upto + 1).drop_last() =~= rows.take(upto));
    assert(rows.take(upto + 1).last() == rows[upto]);
}

/// What a table holds: rows with an identifier each.
pub trait Row: Sized {
    /// The row's identifier.
    spec fn key(&self) -> i32;

    /// The row's identifier.
    fn id(&self) -> (id: i32)
        ensures
            id == self.key(),
    ;

    /// A copy of the row.
    fn copy(&self) -> (row: Self)
        ensures
            row == *self,
    ;
}

/// The rows with a given identifier.
pub open spec fn with_key<T: Row>(id: i32) -> spec_fn(T) -> bool {
    |row: T| row.key() == id
}

/// Rows that are known to other instances by an address of their own.
pub trait Addressed: Row {
    /// The row's address, if it has one.
    spec fn address(&self) -> Option<Seq<char>>;

    /// Whether the row has the given address.
    fn has_address(&self, url: &str) -> (yes: bool)
        ensures
            yes == (self.address() == Some(url@)),
    ;
}

/// The rows with a given address.
pub open spec fn with_address<T: Addressed>(url: Seq<char>) -> spec_fn(T) -> bool {
    |row: T| row.address() == Some(url)
}

/// Whether no two rows share an address.
pub open spec fn distinct_addresses<T: Addressed>(rows: Seq<T>) -> bool {
    forall|i: int, j: int|
        0 <= i < j < rows.len() && (#[trigger] rows[i]).address() is Some ==> rows[i].address() != (
        #[trigger] rows[j]).address()
}

/// A row whose address no row has may join rows of distinct addresses.
pub proof fn lemma_distinct_push<T: Addressed>(rows: Seq<T>, row: T)
    requires
        distinct_addresses(rows),
        row.address() matches Some(url) ==> first_match(rows, with_address(url)) is None,
    ensures
        distinct_addresses(rows.push(row)),
{
    let all = rows.push(row);
    if let Some(url) = row.address() {
        lemma_first_match_sound(rows, with_address(url));
    }
    assert forall|i: int, j: int|
        0 <= i < j < all.len() && (#[trigger] all[i]).address() is Some implies all[i].address() != (
        #[trigger] all[j]).address() by {
        if j < rows.len() {
            assert(all[i] == rows[i] && all[j] == rows[j]);
        } else {
            assert(all[i] == rows[i]);
        }
    }
}

/// The rows of one kind.
pub struct Table<T> {
    /// The rows, in the order in which they were added.
    pub rows: Vec<T>,
    /// The identifier that the next row gets.
    pub next_id: i32,
}

/// The content of a table.
pub struct TableView<T> {
    pub rows: Seq<T>,
    pub next_id: i32,
}

impl<T> View for Table<T> {
    type V = TableView<T>;

    open spec fn view(&self) -> TableView<T> {
        TableView { rows: self.rows@, next_id: self.next_id }
    }
}

/// Whether rows have identifiers that are positive and below the next one
/// to give out, no two rows the same.
pub open spec fn numbered_below<T: Row>(rows: Seq<T>, next_id: i32) -> bool {
    &&& 1 <= next_id
    &&& forall|i: int| 0 <= i < rows.len() ==> 1 <= (#[trigger] rows[i]).key() < next_id
    &&& forall|i: int, j: int|
        0 <= i < j < rows.len() ==> (#[trigger] rows[i]).key() != (#[trigger] rows[j]).key()
}

/// The identifier after the largest of some rows: 1 where there are none.
pub open spec fn after_largest<T: Row>(rows: Seq<T>) -> int
    decreases rows.len(),
{
    if rows.len() == 0 {
        1
    } else {
        let before = after_largest(rows.drop_last());
        if rows.last().key() + 1 > before {
            rows.last().key() + 1
        } else {
            before
        }
    }
}

/// Rows that are chosen among well numbered rows are well numbered.
pub proof fn lemma_filter_numbered<T: Row>(rows: Seq<T>, wanted: spec_fn(T) -> bool, next_id: i32)
    requires
        numbered_below(rows, next_id),
    ensures
        numbered_below(rows.filter(wanted), next_id),
    decreases rows.len(),
{
    reveal(Seq::filter);
    if rows.len() > 0 {
        let shorter = rows.drop_last();
        assert forall|i: int, j: int| 0 <= i < j < shorter.len() implies (#[trigger] shorter[i]).key()
            != (#[trigger] shorter[j]).key() by {
            assert(shorter[i] == rows[i] && shorter[j] == rows[j]);
        }
        assert forall|i: int| 0 <= i < shorter.len() implies 1 <= (#[trigger] shorter[i]).key()
            < next_id by {
            assert(shorter[i] == rows[i]);
        }
        lemma_filter_numbered(shorter, wanted, next_id);
        let chosen = shorter.filter(wanted);
        if wanted(rows.last()) {
            let all = chosen.push(rows.last());
            assert forall|i: int, j: int| 0 <= i < j < all.len() implies (#[trigger] all[i]).key()
                != (#[trigger] all[j]).key() by {
                if j == chosen.len() {
                    shorter.lemma_filter_contains_rev(wanted, chosen[i]);
                    let k = choose|k: int| 0 <= k < shorter.len() && shorter[k] == chosen[i];
                    assert(rows[k] == chosen[i]);
                    assert(rows[rows.len() - 1] == all[j]);
                }
            }
        }
    }
}

impl<T: Row> Table<T> {
    /// Identifiers are positive and below `next_id`, and no two rows share
    /// one.
    pub open spec fn wf(&self) -> bool {
        numbered_below(self.rows@, self.next_id)
    }

    /// The row with an identifier.
    pub open spec fn by_id(&self, id: i32) -> Option<T> {
        first_match(self.rows@, with_key(id))
    }

    /// An empty table, whose first row will get the identifier 1.
    pub fn new() -> (table: Table<T>)
        ensures
            table.rows@ == Seq::<T>::empty(),
            table.next_id == 1,
            table.wf(),
    {
        Table { rows: Vec::new(), next_id: 1 }
    }

    /// A table of given rows, whose next row will get the identifier after
    /// the largest: there is none unless the identifiers are positive and
    /// leave room for one more, and no two rows share one.
    pub fn from_rows(rows: Vec<T>) -> (made: Option<Table<T>>)
        ensures
            made is Some == numbered_below(rows@, i32::MAX),
            made matches Some(table) ==> table.rows@ == rows@ && table.next_id == after_largest(
                rows@,
            ) && table.wf(),
    {
        let mut next_id: i32 = 1;
        let mut i: usize = 0;
        assert(rows@.take(0) =~= Seq::empty());
        while i < rows.len()
            invariant
                i <= rows@.len(),
                next_id == after_largest(rows@.take(i as int)),
                numbered_below(rows@.take(i as int), next_id),
            decreases rows@.len() - i,
        {
            let id = rows[i].id();
            if id < 1 || id == i32::MAX {
                return None;
            }
            let mut j: usize = 0;
            while j < i
                invariant
                    j <= i < rows@.len(),
                    id == rows@[i as int].key(),
                    forall|k: int| 0 <= k < j ==> (#[trigger] rows@[k]).key() != id,
                decreases i - j,
            {
                if rows[j].id() == id {
                    return None;
                }
                j += 1;
            }
            let ghost before = rows@.take(i as int);
            let ghost now = rows@.take(i + 1);
            if id >= next_id {
                next_id = id + 1;
            }
            proof {
                assert(now.drop_last() =~= before);
                assert forall|k: int| 0 <= k < now.len() implies 1 <= (#[trigger] now[k]).key()
                    < next_id by {
                    if k < i {
                        assert(before[k] == now[k]);
                    }
                }
                assert forall|k: int, l: int| 0 <= k < l < now.len() implies (#[trigger] now[k]).key()
                    != (#[trigger] now[l]).key() by {
                    assert(now[k] == rows@[k]);
                    if l < i {
                        assert(before[k] == now[k] && before[l] == now[l]);
                    }
                }
            }
            i += 1;
        }
        assert(rows@.take(rows@.len() as int) =~= rows@);
        Some(Table { rows, next_id })
    }

    /// Where the row with an identifier stands.
    pub fn position(&self, id: i32) -> (at: Option<usize>)
        ensures
            at is Some == self.by_id(id) is Some,
            at matches Some(i) ==> i < self.rows@.len() && self.by_id(id) == Some(self.rows@[i as int])
                && self.rows@[i as int].key() == id && forall|j: int|
                0 <= j < i ==> self.rows@[j].key() != id,
            at matches Some(i) ==> first_index(self.rows@, with_key(id)) == Some(i as int),
            at is None ==> first_index(self.rows@, with_key(id)) is None,
    {
        let mut i: usize = 0;
        while i < self.rows.len()
            invariant
                i <= self.rows@.len(),
                forall|j: int| 0 <= j < i ==> self.rows@[j].key() != id,
            decreases self.rows@.len() - i,
        {
            if self.rows[i].id() == id {
                proof {
                    lemma_first_match_at(self.rows@, with_key(id), i as int);
                    lemma_first_index_at(self.rows@, with_key(id), i as int);
                }
                return Some(i);
            }
            i += 1;
        }
        proof {
            lemma_first_match_none(self.rows@, with_key(id));
            lemma_first_index_none(self.rows@, with_key(id));
        }
        None
    }

    /// Copies of the rows that a test accepts, in their order.
    pub(crate) fn select<F: Fn(&T) -> bool>(&self, test: F, Ghost(wanted): Ghost<
        spec_fn(T) -> bool,
    >) -> (chosen: Vec<T>)
        requires
            forall|row: &T| #[trigger] call_requires(test, (row,)),
            forall|row: &T, yes: bool| #[trigger]
                call_ensures(test, (row,), yes) ==> yes == wanted(*row),
        ensures
            chosen@ == self.rows@.filter(wanted),
    {
        let mut chosen: Vec<T> = Vec::new();
        let mut i: usize = 0;
        proof {
            reveal(Seq::filter);
            assert(self.rows@.take(0) =~= Seq::empty());
        }
        while i < self.rows.len()
            invariant
                i <= self.rows@.len(),
                chosen@ == self.rows@.take(i as int).filter(wanted),
                forall|row: &T| #[trigger] call_requires(test, (row,)),
                forall|row: &T, yes: bool| #[trigger]
                    call_ensures(test, (row,), yes) ==> yes == wanted(*row),
            decreases self.rows@.len() - i,
        {
            proof {
                lemma_filter_step(self.rows@, wanted, i as int);
            }
            if test(&self.rows[i]) {
                chosen.push(self.rows[i].copy());
            }
            i += 1;
        }
        assert(self.rows@.take(self.rows@.len() as int) =~= self.rows@);
        chosen
    }

    /// Whether a test accepts any row.
    pub(crate) fn any<F: Fn(&T) -> bool>(&self, test: F, Ghost(wanted): Ghost<
        spec_fn(T) -> bool,
    >) -> (found: bool)
        requires
            forall|row: &T| #[trigger] call_requires(test, (row,)),
            forall|row: &T, yes: bool| #[trigger]
                call_ensures(test, (row,), yes) ==> yes == wanted(*row),
        ensures
            found == first_match(self.rows@, wanted) is Some,
    {
        let mut i: usize = 0;
        while i < self.rows.len()
            invariant
                i <= self.rows@.len(),
                forall|j: int| 0 <= j < i ==> !wanted(self.rows@[j]),
                forall|row: &T| #[trigger] call_requires(test, (row,)),
                forall|row: &T, yes: bool| #[trigger]
                    call_ensures(test, (row,), yes) ==> yes == wanted(*row),
            decreases self.rows@.len() - i,
        {
            if test(&self.rows[i]) {
                proof {
                    lemma_first_match_at(self.rows@, wanted, i as int);
                }
                return true;
            }
            i += 1;
        }
        proof {
            lemma_first_match_none(self.rows@, wanted);
        }
        false
    }

    /// How many rows a test accepts.
    pub(crate) fn count<F: Fn(&T) -> bool>(&self, test: F, Ghost(wanted): Ghost<
        spec_fn(T) -> bool,
    >) -> (number: usize)
        requires
            forall|row: &T| #[trigger] call_requires(test, (row,)),
            forall|row: &T, yes: bool| #[trigger]
                call_ensures(test, (row,), yes) ==> yes == wanted(*row),
        ensures
            number == self.rows@.filter(wanted).len(),
    {
        let mut number: usize = 0;
        let mut i: usize = 0;
        proof {
            reveal(Seq::filter);
            assert(self.rows@.take(0) =~= Seq::empty());
        }
        while i < self.rows.len()
            invariant
                i <= self.rows@.len(),
                number <= i,
                number == self.rows@.take(i as int).filter(wanted).len(),
                forall|row: &T| #[trigger] call_requires(test, (row,)),
                forall|row: &T, yes: bool| #[trigger]
                    call_ensures(test, (row,), yes) ==> yes == wanted(*row),
            decreases self.rows@.len() - i,
        {
            proof {
                lemma_filter_step(self.rows@, wanted, i as int);
            }
            if test(&self.rows[i]) {
                number += 1;
            }
            i += 1;
        }
        assert(self.rows@.take(self.rows@.len() as int) =~= self.rows@);
        number
    }

    /// The row with an identifier.
    pub fn get(&self, id: i32) -> (found: Option<&T>)
        ensures
            found is Some == self.by_id(id) is Some,
            found matches Some(row) ==> self.by_id(id) == Some(*row),
    {
        match self.position(id) {
            Some(i) => Some(&self.rows[i]),
            None => None,
        }
    }

    /// Add a row at the end. The table must have an identifier left, and the
    /// row should carry it.
    pub fn add(&mut self, row: T)
        requires
            old(self).next_id < i32::MAX,
        ensures
            final(self).rows@ == old(self).rows@.push(row),
            final(self).next_id == old(self).next_id + 1,
            old(self).wf() && row.key() == old(self).next_id ==> final(self).wf(),
    {
        self.rows.push(row);
        self.next_id = self.next_id + 1;
    }

    /// Take out the row with an identifier, if there is one.
    pub fn remove(&mut self, id: i32) -> (removed: bool)
        ensures
            removed == old(self).by_id(id) is Some,
            final(self).next_id == old(self).next_id,
            !removed ==> final(self).rows@ == old(self).rows@,
            removed ==> exists|at: int|
                0 <= at < old(self).rows@.len() && old(self).by_id(id) == Some(
                    old(self).rows@[at],
                ) && old(self).rows@[at].key() == id && final(self).rows@ == old(
                    self,
                ).rows@.remove(at),
            old(self).wf() ==> final(self).wf(),
            old(self).wf() ==> final(self).by_id(id) is None,
    {
        match self.position(id) {
            Some(i) => {
                self.rows.remove(i);
                proof {
                    let before = old(self).rows@;
                    let after = self.rows@;
                    assert(after == before.remove(i as int));
                    if old(self).wf() {
                        assert forall|j: int| 0 <= j < after.len() implies after[j].key()
                            != id by {
                            if j < i {
                                assert(after[j] == before[j]);
                            } else {
                                assert(after[j] == before[j + 1]);
                            }
                        }
                        lemma_first_match_none(after, with_key(id));
                    }
                }
                true
            },
            None => false,
        }
    }
}

impl<T: Addressed> Table<T> {
    /// The first row with an address.
    pub open spec fn by_url(&self, url: Seq<char>) -> Option<T> {
        first_match(self.rows@, with_address(url))
    }

    /// Where the first row with an address stands.
    pub fn locate(&self, url: &str) -> (at: Option<usize>)
        ensures
            at is Some == self.by_url(url@) is Some,
            at matches Some(i) ==> i < self.rows@.len() && first_index(
                self.rows@,
                with_address(url@),
            ) == Some(i as int) && self.by_url(url@) == Some(self.rows@[i as int]),
            at is None ==> first_index(self.rows@, with_address(url@)) is None,
    {
        let mut i: usize = 0;
        while i < self.rows.len()
            invariant
                i <= self.rows@.len(),
                forall|j: int| 0 <= j < i ==> self.rows@[j].address() != Some(url@),
            decreases self.rows@.len() - i,
        {
            if self.rows[i].has_address(url) {
                proof {
                    lemma_first_match_at(self.rows@, with_address(url@), i as int);
                    lemma_first_index_at(self.rows@, with_address(url@), i as int);
                }
                return Some(i);
            }
            i += 1;
        }
        proof {
            lemma_first_match_none(self.rows@, with_address(url@));
            lemma_first_index_none(self.rows@, with_address(url@));
        }
        None
    }

    /// The first row with an address.
    pub fn find(&self, url: &str) -> (found: Option<&T>)
        ensures
            found is Some == self.by_url(url@) is Some,
            found matches Some(row) ==> self.by_url(url@) == Some(*row),
    {
        let mut i: usize = 0;
        while i < self.rows.len()
            invariant
                i <= self.rows@.len(),
                forall|j: int| 0 <= j < i ==> self.rows@[j].address() != Some(url@),
            decreases self.rows@.len() - i,
        {
            if self.rows[i].has_address(url) {
                proof {
                    lemma_first_match_at(self.rows@, with_address(url@), i as int);
                }
                return Some(&self.rows[i]);
            }
            i += 1;
        }
        proof {
            lemma_first_match_none(self.rows@, with_address(url@));
        }
        None
    }
}

/// The first row with an address.
pub open spec fn row_at<T: Addressed>(table: TableView<T>, url: Seq<char>) -> Option<T> {
    first_match(table.rows, with_address(url))
}

/// A table after a row was added.
pub open spec fn grown<T>(table: TableView<T>, row: T) -> TableView<T> {
    TableView { rows: table.rows.push(row), next_id: (table.next_id + 1) as i32 }
}

/// Whether a table holds what another held, and maybe more rows after
/// them.
pub open spec fn extended<T>(before: TableView<T>, after: TableView<T>) -> bool {
    before.rows.is_prefix_of(after.rows) && before.next_id <= after.next_id
}

/// A first match stays the first match when rows are added after it.
pub proof fn lemma_first_match_extended<T>(
    before: Seq<T>,
    after: Seq<T>,
    wanted: spec_fn(T) -> bool,
)
    requires
        before.is_prefix_of(after),
        first_match(before, wanted) is Some,
    ensures
        first_match(after, wanted) == first_match(before, wanted),
    decreases after.len() - before.len(),
{
    if before.len() < after.len() {
        let next = before.push(after[before.len() as int]);
        lemma_first_match_push(before, wanted, after[before.len() as int]);
        assert(next.is_prefix_of(after));
        lemma_first_match_extended(next, after, wanted);
    } else {
        assert(before =~= after);
    }
}

/// Where the first row with an address stands.
pub open spec fn place_of<T: Addressed>(table: TableView<T>, url: Seq<char>) -> Option<int> {
    first_index(table.rows, with_address(url))
}

/// A table without the row at a place.
pub open spec fn without<T>(table: TableView<T>, at: int) -> TableView<T> {
    TableView { rows: table.rows.remove(at), next_id: table.next_id }
}

/// A table with another row at a place.
pub open spec fn replaced<T>(table: TableView<T>, at: int, row: T) -> TableView<T> {
    TableView { rows: table.rows.update(at, row), next_id: table.next_id }
}

/// Setting a row with the same address where the first row with that
/// address stands leaves that place the first.
pub proof fn lemma_place_kept<T: Addressed>(table: TableView<T>, url: Seq<char>, at: int, row: T)
    requires
        place_of(table, url) == Some(at),
        row.address() == Some(url),
    ensures
        place_of(replaced(table, at, row), url) == Some(at),
{
    lemma_first_index(table.rows, with_address(url));
    let after = table.rows.update(at, row);
    assert forall|j: int| 0 <= j < at implies !with_address::<T>(url)(after[j]) by {
        assert(after[j] == table.rows[j]);
    }
    lemma_first_index_at(after, with_address(url), at);
}

/// The first row with an address is the row at the first place with it.
pub proof fn lemma_row_at_place<T: Addressed>(table: TableView<T>, url: Seq<char>)
    ensures
        row_at(table, url) == match place_of(table, url) {
            Some(at) => Some(table.rows[at]),
            None => None,
        },
{
    lemma_first_index(table.rows, with_address(url));
    match place_of(table, url) {
        Some(at) => {
            lemma_first_match_at(table.rows, with_address(url), at);
        },
        None => {
            lemma_first_match_none(table.rows, with_address(url));
        },
    }
}

/// A row that was added under an address that no row had is the only row
/// with that address.
pub proof fn lemma_stored_once<T: Addressed>(before: TableView<T>, row: T, url: Seq<char>)
    requires
        row_at(before, url) is None,
        row.address() == Some(url),
    ensures
        grown(before, row).rows.filter(with_address(url)) == seq![row],
{
    reveal(Seq::filter);
    lemma_first_match_sound(before.rows, with_address(url));
    let rows = before.rows.push(row);
    assert(rows.drop_last() =~= before.rows);
    lemma_filter_none(before.rows, with_address(url));
    assert(rows.filter(with_address(url)) =~= seq![row]);
}

/// Where no row is wanted, the wanted rows are none.
pub proof fn lemma_filter_none<T>(rows: Seq<T>, wanted: spec_fn(T) -> bool)
    requires
        forall|j: int| 0 <= j < rows.len() ==> !wanted(#[trigger] rows[j]),
    ensures
        rows.filter(wanted) == Seq::<T>::empty(),
    decreases rows.len(),
{
    reveal(Seq::filter);
    if rows.len() > 0 {
        assert forall|j: int| 0 <= j < rows.drop_last().len() implies !wanted(
            #[trigger] rows.drop_last()[j],
        ) by {
            assert(rows.drop_last()[j] == rows[j]);
        }
        lemma_filter_none(rows.drop_last(), wanted);
    }
}

} // verus!
