use vstd::prelude::*;

use crate::model::dto::dto_of;
use crate::model::entity::ContentEntity;
use crate::store::{delete_effect, insert_effect, update_effect, Store, StoreError};

verus! {

/// The data-access contract for content records.
///
/// Every operation takes a borrowed executor, so the caller owns the
/// unit-of-work boundary. A call that fails, or matches no row, leaves the
/// executor's observable state unchanged — statement-level atomicity — so a
/// caller that abandons its unit of work after a failure leaves nothing
/// behind.
pub trait ContentInterface {
    /// Insert a record. The store ignores the record's own `id` and
    /// timestamps and assigns its own; the full stored row comes back.
    /// Fails exactly when the store can assign no more.
    fn insert(&self, executor: &mut Store, entity: ContentEntity) -> (r: Result<
        ContentEntity,
        StoreError,
    >)
        requires
            old(executor).wf(),
        ensures
            final(executor).wf(),
            r is Ok <==> old(executor)@.can_assign(),
            r matches Ok(e) ==> insert_effect(old(executor)@, dto_of(entity@), final(executor)@, e@)
                && !old(executor)@.rows.contains_key(e@.id),
            r is Err ==> final(executor)@ == old(executor)@,
    ;

    /// Update the row matching the record's `id`, replacing the wire fields
    /// and refreshing `updated_at`; `Ok(None)` reports that no row matched,
    /// leaving the decision what that means to the caller. Fails exactly
    /// when the store has no timestamp left to assign.
    fn update(&self, executor: &mut Store, entity: ContentEntity) -> (r: Result<
        Option<ContentEntity>,
        StoreError,
    >)
        requires
            old(executor).wf(),
        ensures
            final(executor).wf(),
            r is Err <==> old(executor)@.clock == i64::MAX,
            r is Err ==> final(executor)@ == old(executor)@,
            r matches Ok(Some(e)) ==> update_effect(
                old(executor)@,
                dto_of(entity@),
                final(executor)@,
                e@,
            ),
            r matches Ok(None) ==> !old(executor)@.rows.contains_key(entity@.id)
                && final(executor)@ == old(executor)@,
    ;

    /// Point lookup by primary key; never fails and never writes.
    fn select(&self, executor: &mut Store, id: i64) -> (r: Result<Option<ContentEntity>, StoreError>)
        ensures
            final(executor)@ == old(executor)@,
            r is Ok,
            r matches Ok(Some(e)) ==> old(executor)@.rows.contains_key(id as int)
                && e@ == old(executor)@.rows[id as int],
            r matches Ok(None) ==> !old(executor)@.rows.contains_key(id as int),
    ;

    /// Delete by primary key, reporting how many rows were removed (0 or 1);
    /// never fails.
    fn delete(&self, executor: &mut Store, id: i64) -> (r: Result<u64, StoreError>)
        requires
            old(executor).wf(),
        ensures
            final(executor).wf(),
            r is Ok,
            r matches Ok(n) ==> if old(executor)@.rows.contains_key(id as int) {
                n == 1 && delete_effect(old(executor)@, id as int, final(executor)@)
            } else {
                n == 0 && final(executor)@ == old(executor)@
            },
    ;
}

} // verus!
