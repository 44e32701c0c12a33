//! Registration and removal of roots: stable ids, and the steps that remove a
//! root together with its shard store.
use vstd::prelude::*;
use crate::batch::IndexError;
use crate::model::SearchFolder;

verus! {

/// Relies on `uuid::Uuid::new_v4` and its `Display`: a random version-4 UUID
/// printed in its hyphenated form, 36 characters long. Its value is random,
/// so nothing more is stated.
#[verifier::external_body]
fn random_uuid() -> (r: String)
    ensures
        r@.len() == 36,
{
    uuid::Uuid::new_v4().to_string()
}

/// A row to insert into the registry.
#[derive(Debug)]
pub struct NewRoot {
    pub path: String,
    pub uuid: String,
}

/// A fresh registry row for `path`, with a newly generated stable id in the
/// 36-character hyphenated UUID form. The same path registered twice gets two
/// rows and two shards.
pub fn new_root(path: &str) -> (r: NewRoot)
    ensures
        r.path@ == path@,
        r.uuid@.len() == 36,
{
    NewRoot { path: path.to_string(), uuid: random_uuid() }
}

/// What removing a root involves: its row, and the shard its stable id names.
#[derive(Debug)]
pub struct UnregisterPlan {
    pub id: i32,
    pub shard: String,
}

/// The row of the first root with id `id`, if any.
pub open spec fn find_row(rows: Seq<SearchFolder>, id: i32) -> Option<SearchFolder>
    decreases rows.len(),
{
    if rows.len() == 0 {
        None
    } else if rows[0].id == id {
        Some(rows[0])
    } else {
        find_row(rows.drop_first(), id)
    }
}

/// Looks up the root to remove among the registered rows.
pub fn plan_unregister(rows: &Vec<SearchFolder>, id: i32) -> (r: Result<UnregisterPlan, IndexError>)
    ensures
        find_row(rows@, id) is None <==> r is Err,
        r is Err ==> r == Err::<UnregisterPlan, IndexError>(IndexError::NotFound),
        r matches Ok(p) ==> p.id == id && p.shard@ == find_row(rows@, id)->0.uuid@,
{
    assert(rows@.subrange(0, rows@.len() as int) =~= rows@);
    let mut i: usize = 0;
    while i < rows.len()
        invariant
            i <= rows@.len(),
            find_row(rows@, id) == find_row(rows@.subrange(i as int, rows@.len() as int), id),
        decreases rows@.len() - i,
    {
        proof {
            assert(rows@.subrange(i as int, rows@.len() as int).drop_first()
                =~= rows@.subrange(i + 1, rows@.len() as int));
        }
        if rows[i].id == id {
            return Ok(UnregisterPlan { id, shard: rows[i].uuid.clone() });
        }
        i = i + 1;
    }
    Err(IndexError::NotFound)
}

/// The registry row to delete once removing the shard's storage was tried.
pub open spec fn row_to_delete(plan: UnregisterPlan, shard_removed: bool) -> i32 {
    plan.id
}

/// After the best-effort removal of the shard's storage, the registry row is
/// deleted whatever that removal gave.
pub fn finish_unregister(plan: &UnregisterPlan, shard_removed: bool) -> (r: i32)
    ensures
        r == row_to_delete(*plan, shard_removed),
        r == plan.id,
{
    plan.id
}

/// The registry row of a root goes even when its shard could not be deleted:
/// both outcomes of the shard removal delete the same row.
pub proof fn lemma_row_deleted_even_if_shard_removal_fails(plan: UnregisterPlan)
    ensures
        row_to_delete(plan, false) == plan.id,
        row_to_delete(plan, false) == row_to_delete(plan, true),
{
}

} // verus!
