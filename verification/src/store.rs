//! The person table modelled in memory: the live rows in storage order plus
//! the auto-increment high-water mark, with one operation per route. Each
//! operation is specified against a ghost transition function over the view,
//! so that laws about sequences of operations can be stated and proved.

use vstd::prelude::*;

use crate::person::{FieldsView, Person, PersonFields, PersonView, row_of};

verus! {

/// Ghost state of the store: the rows in storage order, and the next id the
/// store will assign. Ids are never reused: `next_id` only grows.
#[verifier::ext_equal]
pub struct StoreView {
    pub rows: Seq<PersonView>,
    pub next_id: int,
}

/// The error a storage operation reports.
#[derive(Clone, Copy, Debug, PartialEq, Eq, Structural)]
pub enum StoreError {
    /// The national id is already carried by another live row (a client error).
    DuplicateDni,
    /// No live row carries the targeted id.
    NotFound,
}

/// Some live row carries this national id.
pub open spec fn has_dni(rows: Seq<PersonView>, dni: Seq<char>) -> bool {
    exists|i: int| 0 <= i < rows.len() && rows[i].dni == dni
}

/// Some live row other than the one with id `id` carries this national id.
pub open spec fn dni_taken_by_other(rows: Seq<PersonView>, id: int, dni: Seq<char>) -> bool {
    exists|i: int| 0 <= i < rows.len() && rows[i].dni == dni && rows[i].id != id
}

/// Some live row carries this id.
pub open spec fn has_id(rows: Seq<PersonView>, id: int) -> bool {
    exists|i: int| 0 <= i < rows.len() && rows[i].id == id
}

/// The index of the row carrying `id`; meaningful only when `has_id` holds,
/// and then unique in a well-formed store.
pub open spec fn index_of_id(rows: Seq<PersonView>, id: int) -> int {
    choose|i: int| 0 <= i < rows.len() && rows[i].id == id
}

impl StoreView {
    /// Well-formedness: the high-water mark is positive, every id is positive
    /// and below it, and both ids and national ids are unique across rows.
    pub open spec fn wf(self) -> bool {
        &&& 1 <= self.next_id
        &&& forall|i: int|
            0 <= i < self.rows.len() ==> 1 <= (#[trigger] self.rows[i]).id < self.next_id
        &&& forall|i: int, j: int|
            0 <= i < j < self.rows.len() ==> self.rows[i].id != self.rows[j].id
        &&& forall|i: int, j: int|
            0 <= i < j < self.rows.len() ==> self.rows[i].dni != self.rows[j].dni
    }
}

/// The freshly initialized store: no rows, first id to assign is 1.
pub open spec fn empty_model() -> StoreView {
    StoreView { rows: Seq::empty(), next_id: 1 }
}

/// Transition for create: a duplicate national id leaves the store unchanged
/// and fails; otherwise the new row is appended under the next id, which is
/// returned, and the high-water mark advances.
pub open spec fn create_model(s: StoreView, f: FieldsView) -> (StoreView, Result<
    int,
    StoreError,
>) {
    if has_dni(s.rows, f.dni) {
        (s, Err(StoreError::DuplicateDni))
    } else {
        (
            StoreView { rows: s.rows.push(row_of(s.next_id, f)), next_id: s.next_id + 1 },
            Ok(s.next_id),
        )
    }
}

/// What get observes: the row carrying `id`, if any.
pub open spec fn get_model(s: StoreView, id: int) -> Option<PersonView> {
    if has_id(s.rows, id) {
        Some(s.rows[index_of_id(s.rows, id)])
    } else {
        None
    }
}

/// Transition for update: a full replacement of the four client attributes on
/// the row carrying `id`. Fails without mutation when no row carries `id`, or
/// when the new national id is already carried by a different row.
pub open spec fn update_model(s: StoreView, id: int, f: FieldsView) -> (StoreView, Result<
    (),
    StoreError,
>) {
    if !has_id(s.rows, id) {
        (s, Err(StoreError::NotFound))
    } else if dni_taken_by_other(s.rows, id, f.dni) {
        (s, Err(StoreError::DuplicateDni))
    } else {
        (
            StoreView {
                rows: s.rows.update(index_of_id(s.rows, id), row_of(id, f)),
                next_id: s.next_id,
            },
            Ok(()),
        )
    }
}

/// Transition for delete: the row carrying `id` is removed for good; the
/// high-water mark does not move, so the id is never assigned again.
pub open spec fn delete_model(s: StoreView, id: int) -> (StoreView, Result<(), StoreError>) {
    if !has_id(s.rows, id) {
        (s, Err(StoreError::NotFound))
    } else {
        (
            StoreView { rows: s.rows.remove(index_of_id(s.rows, id)), next_id: s.next_id },
            Ok(()),
        )
    }
}

/// A successful create preserves well-formedness, and the id it returns is
/// fresh: strictly above every id of the prior rows.
pub proof fn lemma_create_wf(s: StoreView, f: FieldsView)
    requires
        s.wf(),
    ensures
        create_model(s, f).0.wf(),
        create_model(s, f).1 matches Ok(id) ==> id == s.next_id && forall|i: int|
            0 <= i < s.rows.len() ==> (#[trigger] s.rows[i]).id < id,
{
    if !has_dni(s.rows, f.dni) {
        let r = row_of(s.next_id, f);
        let rows1 = s.rows.push(r);
        let n = s.rows.len() as int;
        assert forall|i: int| 0 <= i < rows1.len() implies 1 <= (#[trigger] rows1[i]).id < s.next_id
            + 1 by {
            if i < n {
                assert(rows1[i] == s.rows[i]);
            } else {
                assert(rows1[i] == r);
            }
        }
        assert forall|i: int, j: int| 0 <= i < j < rows1.len() implies rows1[i].id
            != rows1[j].id by {
            if j < n {
            } else {
                assert(rows1[j] == r);
                assert(rows1[i] == s.rows[i]);
            }
        }
        assert forall|i: int, j: int| 0 <= i < j < rows1.len() implies rows1[i].dni
            != rows1[j].dni by {
            if j < n {
            } else {
                assert(rows1[j] == r);
                assert(rows1[i] == s.rows[i]);
                assert(!has_dni(s.rows, f.dni));
            }
        }
    }
}

/// A successful update preserves well-formedness; the targeted row keeps its
/// id and every other row is untouched.
pub proof fn lemma_update_wf(s: StoreView, id: int, f: FieldsView)
    requires
        s.wf(),
    ensures
        update_model(s, id, f).0.wf(),
{
    if has_id(s.rows, id) && !dni_taken_by_other(s.rows, id, f.dni) {
        let k = index_of_id(s.rows, id);
        assert(0 <= k < s.rows.len() && s.rows[k].id == id);
        let rows1 = s.rows.update(k, row_of(id, f));
        assert forall|i: int| 0 <= i < rows1.len() implies 1 <= (#[trigger] rows1[i]).id
            < s.next_id by {
            if i != k {
                assert(rows1[i] == s.rows[i]);
            }
        }
        assert forall|i: int, j: int| 0 <= i < j < rows1.len() implies rows1[i].id
            != rows1[j].id by {
            if i != k && j != k {
                assert(rows1[i] == s.rows[i]);
                assert(rows1[j] == s.rows[j]);
            } else if i == k {
                assert(rows1[j] == s.rows[j]);
                assert(s.rows[j].id != s.rows[k].id);
            } else {
                assert(rows1[i] == s.rows[i]);
                assert(s.rows[i].id != s.rows[k].id);
            }
        }
        assert forall|i: int, j: int| 0 <= i < j < rows1.len() implies rows1[i].dni
            != rows1[j].dni by {
            if i != k && j != k {
                assert(rows1[i] == s.rows[i]);
                assert(rows1[j] == s.rows[j]);
            } else if i == k {
                assert(rows1[j] == s.rows[j]);
                assert(s.rows[j].id != id);
                assert(!dni_taken_by_other(s.rows, id, f.dni));
            } else {
                assert(rows1[i] == s.rows[i]);
                assert(s.rows[i].id != id);
                assert(!dni_taken_by_other(s.rows, id, f.dni));
            }
        }
    }
}

/// A successful delete preserves well-formedness.
pub proof fn lemma_delete_wf(s: StoreView, id: int)
    requires
        s.wf(),
    ensures
        delete_model(s, id).0.wf(),
{
    if has_id(s.rows, id) {
        let k = index_of_id(s.rows, id);
        assert(0 <= k < s.rows.len() && s.rows[k].id == id);
        let rows1 = s.rows.remove(k);
        assert forall|i: int| 0 <= i < rows1.len() implies 1 <= (#[trigger] rows1[i]).id
            < s.next_id by {
            if i < k {
                assert(rows1[i] == s.rows[i]);
            } else {
                assert(rows1[i] == s.rows[i + 1]);
            }
        }
        assert forall|i: int, j: int| 0 <= i < j < rows1.len() implies rows1[i].id
            != rows1[j].id by {
            let i0: int = if i < k { i } else { i + 1 };
            let j0: int = if j < k { j } else { j + 1 };
            assert(rows1[i] == s.rows[i0]);
            assert(rows1[j] == s.rows[j0]);
        }
        assert forall|i: int, j: int| 0 <= i < j < rows1.len() implies rows1[i].dni
            != rows1[j].dni by {
            let i0: int = if i < k { i } else { i + 1 };
            let j0: int = if j < k { j } else { j + 1 };
            assert(rows1[i] == s.rows[i0]);
            assert(rows1[j] == s.rows[j0]);
        }
    }
}

/// In a well-formed store the row index for an id is unique: any index whose
/// row carries the id is the chosen one.
pub proof fn lemma_index_of_id_unique(rows: Seq<PersonView>, id: int, i: int)
    requires
        forall|p: int, q: int| 0 <= p < q < rows.len() ==> rows[p].id != rows[q].id,
        0 <= i < rows.len(),
        rows[i].id == id,
    ensures
        index_of_id(rows, id) == i,
{
    assert(has_id(rows, id));
    let k = index_of_id(rows, id);
    assert(0 <= k < rows.len() && rows[k].id == id);
    if k < i {
        assert(rows[k].id != rows[i].id);
    } else if i < k {
        assert(rows[i].id != rows[k].id);
    }
}

/// The person table held in memory.
pub struct PersonStore {
    rows: Vec<Person>,
    next_id: i64,
}

/// The views of a sequence of stored rows.
pub open spec fn rows_view(rows: Seq<Person>) -> Seq<PersonView> {
    rows.map_values(|p: Person| p@)
}

impl View for PersonStore {
    type V = StoreView;

    closed spec fn view(&self) -> StoreView {
        StoreView { rows: rows_view(self.rows@), next_id: self.next_id as int }
    }
}

impl PersonStore {
    /// Initialize an empty store, as creating the table does on first start.
    /// The first id assigned will be 1.
    pub fn new() -> (s: PersonStore)
        ensures
            s@ == empty_model(),
            s@.wf(),
    {
        let s = PersonStore { rows: Vec::new(), next_id: 1 };
        proof {
            assert(s@.rows =~= empty_model().rows);
            assert(s@ =~= empty_model());
        }
        s
    }

    /// Scan for a national id among the live rows.
    fn dni_present(rows: &Vec<Person>, dni: &String) -> (r: bool)
        ensures
            r == has_dni(rows_view(rows@), dni@),
    {
        let mut i: usize = 0;
        while i < rows.len()
            invariant
                i <= rows@.len(),
                forall|j: int| 0 <= j < i ==> rows_view(rows@)[j].dni != dni@,
            decreases rows@.len() - i,
        {
            if rows[i].dni == *dni {
                assert(rows_view(rows@)[i as int].dni == dni@);
                return true;
            }
            i += 1;
        }
        false
    }

    /// Scan for a national id carried by a row other than the one with `id`.
    fn dni_elsewhere(rows: &Vec<Person>, id: i64, dni: &String) -> (r: bool)
        ensures
            r == dni_taken_by_other(rows_view(rows@), id as int, dni@),
    {
        let mut i: usize = 0;
        while i < rows.len()
            invariant
                i <= rows@.len(),
                forall|j: int|
                    0 <= j < i ==> !((#[trigger] rows_view(rows@)[j]).dni == dni@ && rows_view(
                        rows@,
                    )[j].id != id as int),
            decreases rows@.len() - i,
        {
            if rows[i].dni == *dni && rows[i].id != id {
                assert(rows_view(rows@)[i as int].dni == dni@);
                return true;
            }
            i += 1;
        }
        false
    }

    /// Find the position of the row carrying `id`, if any.
    fn position_of_id(rows: &Vec<Person>, id: i64) -> (r: Option<usize>)
        ensures
            (match r {
                Some(i) => i < rows@.len() && rows_view(rows@)[i as int].id == id as int,
                None => !has_id(rows_view(rows@), id as int),
            }),
    {
        let mut i: usize = 0;
        while i < rows.len()
            invariant
                i <= rows@.len(),
                forall|j: int| 0 <= j < i ==> (#[trigger] rows_view(rows@)[j]).id != id as int,
            decreases rows@.len() - i,
        {
            if rows[i].id == id {
                return Some(i);
            }
            i += 1;
        }
        None
    }

    /// Insert a new person. Fails, leaving the store unchanged, exactly when
    /// the national id is already carried by a live row; otherwise appends the
    /// row under the next id and returns that id.
    pub fn create(&mut self, fields: PersonFields) -> (r: Result<i64, StoreError>)
        requires
            old(self)@.wf(),
            old(self)@.next_id < i64::MAX as int,
        ensures
            final(self)@ == create_model(old(self)@, fields@).0,
            final(self)@.wf(),
            (match r {
                Ok(id) => create_model(old(self)@, fields@).1 == Ok::<int, StoreError>(id as int),
                Err(e) => create_model(old(self)@, fields@).1 == Err::<int, StoreError>(e),
            }),
    {
        proof {
            lemma_create_wf(old(self)@, fields@);
        }
        if Self::dni_present(&self.rows, &fields.dni) {
            Err(StoreError::DuplicateDni)
        } else {
            let id = self.next_id;
            let row = Person::from_fields(id, fields);
            self.rows.push(row);
            self.next_id = id + 1;
            proof {
                assert(self@.rows =~= create_model(old(self)@, fields@).0.rows);
                assert(self@ =~= create_model(old(self)@, fields@).0);
            }
            Ok(id)
        }
    }

    /// Fetch the row carrying `id`, if any.
    pub fn get(&self, id: i64) -> (r: Option<Person>)
        requires
            self@.wf(),
        ensures
            (match r {
                Some(p) => get_model(self@, id as int) == Some(p@),
                None => get_model(self@, id as int) is None,
            }),
    {
        match Self::position_of_id(&self.rows, id) {
            Some(i) => {
                let p = self.rows[i].duplicate();
                proof {
                    lemma_index_of_id_unique(self@.rows, id as int, i as int);
                    assert(has_id(self@.rows, id as int));
                    assert(p@ == self@.rows[i as int]);
                }
                Some(p)
            },
            None => None,
        }
    }

    /// Replace all four client attributes of the row carrying `id`. Fails,
    /// leaving the store unchanged, when no row carries `id` or when the new
    /// national id is already carried by a different row.
    pub fn update(&mut self, id: i64, fields: PersonFields) -> (r: Result<(), StoreError>)
        requires
            old(self)@.wf(),
        ensures
            final(self)@ == update_model(old(self)@, id as int, fields@).0,
            final(self)@.wf(),
            r == update_model(old(self)@, id as int, fields@).1,
    {
        proof {
            lemma_update_wf(old(self)@, id as int, fields@);
        }
        match Self::position_of_id(&self.rows, id) {
            None => Err(StoreError::NotFound),
            Some(i) => {
                proof {
                    lemma_index_of_id_unique(old(self)@.rows, id as int, i as int);
                    assert(has_id(old(self)@.rows, id as int));
                }
                if Self::dni_elsewhere(&self.rows, id, &fields.dni) {
                    Err(StoreError::DuplicateDni)
                } else {
                    let row = Person::from_fields(id, fields);
                    self.rows.remove(i);
                    self.rows.insert(i, row);
                    proof {
                        let target = update_model(old(self)@, id as int, fields@).0;
                        assert forall|j: int| 0 <= j < self@.rows.len() implies self@.rows[j]
                            == target.rows[j] by {
                            if j < i {
                                assert(self.rows@[j] == old(self).rows@[j]);
                            } else if j == i {
                            } else {
                                assert(self.rows@[j] == old(self).rows@[j]);
                            }
                        }
                        assert(self@.rows =~= target.rows);
                        assert(self@ =~= target);
                    }
                    Ok(())
                }
            },
        }
    }

    /// Remove the row carrying `id` for good. Fails, leaving the store
    /// unchanged, when no row carries `id`. The id is never assigned again.
    pub fn delete(&mut self, id: i64) -> (r: Result<(), StoreError>)
        requires
            old(self)@.wf(),
        ensures
            final(self)@ == delete_model(old(self)@, id as int).0,
            final(self)@.wf(),
            r == delete_model(old(self)@, id as int).1,
    {
        proof {
            lemma_delete_wf(old(self)@, id as int);
        }
        match Self::position_of_id(&self.rows, id) {
            None => Err(StoreError::NotFound),
            Some(i) => {
                proof {
                    lemma_index_of_id_unique(old(self)@.rows, id as int, i as int);
                    assert(has_id(old(self)@.rows, id as int));
                }
                self.rows.remove(i);
                proof {
                    let target = delete_model(old(self)@, id as int).0;
                    assert(self@.rows =~= target.rows);
                    assert(self@ =~= target);
                }
                Ok(())
            },
        }
    }

    /// All live rows, in storage order.
    pub fn list(&self) -> (r: Vec<Person>)
        ensures
            rows_view(r@) == self@.rows,
    {
        let mut out: Vec<Person> = Vec::new();
        let mut i: usize = 0;
        while i < self.rows.len()
            invariant
                i <= self.rows@.len(),
                out@.len() == i,
                forall|j: int| 0 <= j < i ==> (#[trigger] out@[j])@ == self.rows@[j]@,
            decreases self.rows@.len() - i,
        {
            let p = self.rows[i].duplicate();
            out.push(p);
            i += 1;
        }
        proof {
            assert(rows_view(out@) =~= self@.rows);
        }
        out
    }
}

} // verus!
