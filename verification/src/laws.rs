//! Laws of the registry, stated over the ghost transition functions and proved
//! once and for all: freshness and monotonicity of assigned ids, what a get
//! observes after a create, update or delete, that failed operations mutate
//! nothing, and what a list returns after a deletion.

use vstd::prelude::*;

use crate::person::{row_of, FieldsView};
use crate::store::{
    create_model, delete_model, get_model, has_dni, has_id, index_of_id, lemma_create_wf,
    lemma_delete_wf, lemma_index_of_id_unique, lemma_update_wf, update_model, StoreError,
    StoreView,
};

verus! {

/// One mutating operation of the service, as a ghost event.
pub enum OpModel {
    CreateOp(FieldsView),
    UpdateOp(int, FieldsView),
    DeleteOp(int),
}

/// The state after one operation; failed operations leave the state as it was.
pub open spec fn step_model(s: StoreView, op: OpModel) -> StoreView {
    match op {
        OpModel::CreateOp(f) => create_model(s, f).0,
        OpModel::UpdateOp(id, f) => update_model(s, id, f).0,
        OpModel::DeleteOp(id) => delete_model(s, id).0,
    }
}

/// The state after a whole sequence of operations, first one first.
pub open spec fn run_model(s: StoreView, ops: Seq<OpModel>) -> StoreView
    decreases ops.len(),
{
    if ops.len() == 0 {
        s
    } else {
        run_model(step_model(s, ops[0]), ops.drop_first())
    }
}

/// Every single operation preserves well-formedness and never lowers the
/// id high-water mark: assigned ids are never reused.
pub proof fn lemma_step_wf_monotone(s: StoreView, op: OpModel)
    requires
        s.wf(),
    ensures
        step_model(s, op).wf(),
        s.next_id <= step_model(s, op).next_id,
{
    match op {
        OpModel::CreateOp(f) => lemma_create_wf(s, f),
        OpModel::UpdateOp(id, f) => lemma_update_wf(s, id, f),
        OpModel::DeleteOp(id) => lemma_delete_wf(s, id),
    }
}

/// Every sequence of operations preserves well-formedness and never lowers
/// the id high-water mark.
pub proof fn lemma_run_wf_monotone(s: StoreView, ops: Seq<OpModel>)
    requires
        s.wf(),
    ensures
        run_model(s, ops).wf(),
        s.next_id <= run_model(s, ops).next_id,
    decreases ops.len(),
{
    if ops.len() > 0 {
        lemma_step_wf_monotone(s, ops[0]);
        lemma_run_wf_monotone(step_model(s, ops[0]), ops.drop_first());
    }
}

/// A successful create returns an id that no live row carried before, and a
/// second successful create — however many operations lie in between — returns
/// a strictly larger id: ids strictly increase and are never handed out twice.
pub proof fn lemma_create_ids_strictly_increase(
    s: StoreView,
    f1: FieldsView,
    ops: Seq<OpModel>,
    f2: FieldsView,
)
    requires
        s.wf(),
        create_model(s, f1).1 is Ok,
        create_model(run_model(create_model(s, f1).0, ops), f2).1 is Ok,
    ensures
        ({
            let id1 = create_model(s, f1).1->Ok_0;
            let mid = run_model(create_model(s, f1).0, ops);
            let id2 = create_model(mid, f2).1->Ok_0;
            &&& forall|i: int| 0 <= i < s.rows.len() ==> (#[trigger] s.rows[i]).id != id1
            &&& forall|i: int| 0 <= i < mid.rows.len() ==> (#[trigger] mid.rows[i]).id != id2
            &&& id1 < id2
        }),
{
    lemma_create_wf(s, f1);
    let s1 = create_model(s, f1).0;
    lemma_run_wf_monotone(s1, ops);
    let mid = run_model(s1, ops);
    lemma_create_wf(mid, f2);
}

/// A create whose national id is already carried by a live row fails as a
/// client error and leaves the store exactly as it was.
pub proof fn lemma_create_duplicate_unchanged(s: StoreView, f: FieldsView)
    requires
        has_dni(s.rows, f.dni),
    ensures
        create_model(s, f).0 == s,
        create_model(s, f).1 == Err::<int, StoreError>(StoreError::DuplicateDni),
{
}

/// A get on the id a successful create returned observes exactly the four
/// attributes supplied to the create, under that id.
pub proof fn lemma_get_after_create(s: StoreView, f: FieldsView)
    requires
        s.wf(),
        create_model(s, f).1 is Ok,
    ensures
        ({
            let id = create_model(s, f).1->Ok_0;
            get_model(create_model(s, f).0, id) == Some(row_of(id, f))
        }),
{
    lemma_create_wf(s, f);
    let id = create_model(s, f).1->Ok_0;
    let s1 = create_model(s, f).0;
    assert(s1.rows[s.rows.len() as int] == row_of(id, f));
    lemma_index_of_id_unique(s1.rows, id, s.rows.len() as int);
}

/// A get on an id the store never assigned observes nothing.
pub proof fn lemma_get_never_created(s: StoreView, id: int)
    requires
        s.wf(),
        id >= s.next_id,
    ensures
        get_model(s, id) is None,
{
    assert(!has_id(s.rows, id));
}

/// After a successful update, a get on the same id observes exactly the new
/// four attributes, still under the same id.
pub proof fn lemma_get_after_update(s: StoreView, id: int, f: FieldsView)
    requires
        s.wf(),
        update_model(s, id, f).1 is Ok,
    ensures
        get_model(update_model(s, id, f).0, id) == Some(row_of(id, f)),
{
    lemma_update_wf(s, id, f);
    let k = index_of_id(s.rows, id);
    assert(has_id(s.rows, id));
    assert(0 <= k < s.rows.len() && s.rows[k].id == id);
    let s1 = update_model(s, id, f).0;
    assert(s1.rows[k] == row_of(id, f));
    lemma_index_of_id_unique(s1.rows, id, k);
}

/// An update on an id no live row carries fails as not-found and leaves the
/// store exactly as it was.
pub proof fn lemma_update_missing_unchanged(s: StoreView, id: int, f: FieldsView)
    requires
        !has_id(s.rows, id),
    ensures
        update_model(s, id, f).0 == s,
        update_model(s, id, f).1 == Err::<(), StoreError>(StoreError::NotFound),
{
}

/// After a successful delete, a get on the same id observes nothing, and a
/// second delete of the same id fails as not-found and mutates nothing:
/// absence is permanent, only the first delete succeeds.
pub proof fn lemma_delete_then_absent(s: StoreView, id: int)
    requires
        s.wf(),
        has_id(s.rows, id),
    ensures
        delete_model(s, id).1 is Ok,
        get_model(delete_model(s, id).0, id) is None,
        delete_model(delete_model(s, id).0, id).0 == delete_model(s, id).0,
        delete_model(delete_model(s, id).0, id).1 == Err::<(), StoreError>(StoreError::NotFound),
{
    lemma_delete_wf(s, id);
    let k = index_of_id(s.rows, id);
    assert(0 <= k < s.rows.len() && s.rows[k].id == id);
    let s1 = delete_model(s, id).0;
    assert forall|i: int| 0 <= i < s1.rows.len() implies (#[trigger] s1.rows[i]).id != id by {
        let i0: int = if i < k {
            i
        } else {
            i + 1
        };
        assert(s1.rows[i] == s.rows[i0]);
        if i0 < k {
            assert(s.rows[i0].id != s.rows[k].id);
        } else {
            assert(s.rows[k].id != s.rows[i0].id);
        }
    }
    assert(!has_id(s1.rows, id));
}

/// Creating three persons with three fresh, pairwise different national ids
/// and then deleting the second leaves exactly the first and the third row
/// appended to the prior rows, in order: a list then returns exactly those.
pub proof fn lemma_list_after_delete_of_second(
    s: StoreView,
    fa: FieldsView,
    fb: FieldsView,
    fc: FieldsView,
)
    requires
        s.wf(),
        !has_dni(s.rows, fa.dni),
        fb.dni != fa.dni && !has_dni(s.rows, fb.dni),
        fc.dni != fa.dni && fc.dni != fb.dni && !has_dni(s.rows, fc.dni),
    ensures
        ({
            let ida = create_model(s, fa).1->Ok_0;
            let s1 = create_model(s, fa).0;
            let idb = create_model(s1, fb).1->Ok_0;
            let s2 = create_model(s1, fb).0;
            let idc = create_model(s2, fc).1->Ok_0;
            let s3 = create_model(s2, fc).0;
            &&& create_model(s1, fb).1 is Ok
            &&& create_model(s2, fc).1 is Ok
            &&& delete_model(s3, idb).1 is Ok
            &&& delete_model(s3, idb).0.rows =~= s.rows.push(row_of(ida, fa)).push(
                row_of(idc, fc),
            )
        }),
{
    let n = s.rows.len() as int;
    lemma_create_wf(s, fa);
    let ida = create_model(s, fa).1->Ok_0;
    let s1 = create_model(s, fa).0;
    assert(!has_dni(s1.rows, fb.dni));
    lemma_create_wf(s1, fb);
    let idb = create_model(s1, fb).1->Ok_0;
    let s2 = create_model(s1, fb).0;
    assert(!has_dni(s2.rows, fc.dni));
    lemma_create_wf(s2, fc);
    let idc = create_model(s2, fc).1->Ok_0;
    let s3 = create_model(s2, fc).0;
    assert(s3.rows[n + 1] == row_of(idb, fb));
    assert(s3.rows[n + 1].id == idb);
    assert(has_id(s3.rows, idb));
    lemma_index_of_id_unique(s3.rows, idb, n + 1);
    let s4 = delete_model(s3, idb).0;
    assert(s4.rows =~= s.rows.push(row_of(ida, fa)).push(row_of(idc, fc)));
}

} // verus!
