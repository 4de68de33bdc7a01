use vstd::prelude::*;

use crate::middleware::error_handler::ApiError;
use crate::model::dto::{dto_of, inserted_entity, updated_entity, ContentDto, DtoModel};
use crate::repository::RepositoryExtend;
use crate::repository::interface::ContentInterface;
use crate::store::{Store, StoreModel};

verus! {

/// What `create` does to the store: the record is inserted under the next
/// id with both timestamps from the clock, and its wire view comes back.
pub open spec fn create_step(s: StoreModel, d: DtoModel) -> (StoreModel, DtoModel) {
    let row = inserted_entity(d, s.next_id, s.clock);
    (
        StoreModel {
            rows: s.rows.insert(s.next_id, row),
            next_id: s.next_id + 1,
            clock: s.clock + 1,
        },
        dto_of(row),
    )
}

/// What `find` returns: the wire view of the row under `id`, or nothing.
pub open spec fn find_step(s: StoreModel, id: int) -> Option<DtoModel> {
    if s.rows.contains_key(id) {
        Some(dto_of(s.rows[id]))
    } else {
        None
    }
}

/// What `edit` does to the store when the id has a row: the wire fields are
/// replaced, `created_at` is kept, `updated_at` is refreshed; `None` when
/// the id has no row.
pub open spec fn edit_step(s: StoreModel, d: DtoModel) -> Option<(StoreModel, DtoModel)> {
    if s.rows.contains_key(d.id) {
        let row = updated_entity(s.rows[d.id], d, s.clock);
        Some(
            (
                StoreModel { rows: s.rows.insert(d.id, row), next_id: s.next_id, clock: s.clock + 1 },
                dto_of(row),
            ),
        )
    } else {
        None
    }
}

/// What `remove` does to the store when the id has a row; `None` when it
/// has none.
pub open spec fn remove_step(s: StoreModel, id: int) -> Option<StoreModel> {
    if s.rows.contains_key(id) {
        Some(StoreModel { rows: s.rows.remove(id), next_id: s.next_id, clock: s.clock })
    } else {
        None
    }
}

/// The content use-case: each operation runs one repository call as its own
/// unit of work against the owned store and converts between wire and
/// persisted shapes at its boundary.
pub struct ContentUseCase<R: RepositoryExtend> {
    store: Store,
    repository: R,
}

impl<R: RepositoryExtend> ContentUseCase<R> {
    /// The state of the underlying store.
    pub closed spec fn state(self) -> StoreModel {
        self.store@
    }

    /// Well-formedness of the underlying store.
    pub closed spec fn wf(self) -> bool {
        self.store.wf()
    }

    pub fn new(store: Store, repository: R) -> (u: ContentUseCase<R>)
        ensures
            u.state() == store@,
            store.wf() ==> u.wf(),
    {
        ContentUseCase { store, repository }
    }

    /// Insert a new record and return its stored wire view, id assigned by
    /// the store. The unit of work is committed only when the repository
    /// call succeeds; on failure nothing is persisted.
    pub fn create(&mut self, dto: ContentDto) -> (r: Result<ContentDto, ApiError>)
        requires
            old(self).wf(),
        ensures
            final(self).wf(),
            r is Ok <==> old(self).state().can_assign(),
            r matches Ok(d) ==> (final(self).state(), d@) == create_step(old(self).state(), dto@),
            r matches Err(e) ==> e == ApiError::StorageError && final(self).state() == old(
                self,
            ).state(),
    {
        // begin: the repository call below is this operation's unit of work
        let result = self.repository.content().insert(&mut self.store, dto.to_entity());
        match result {
            // commit
            Ok(entity) => Ok(ContentDto::from_entity(entity)),
            // rollback: the failed statement left no change behind
            Err(_) => Err(ApiError::StorageError),
        }
    }

    /// Look up a record by id on a plain borrowed connection; absence is an
    /// error, never an empty success.
    pub fn find(&mut self, id: i64) -> (r: Result<ContentDto, ApiError>)
        requires
            old(self).wf(),
        ensures
            final(self).wf(),
            final(self).state() == old(self).state(),
            r is Ok <==> old(self).state().rows.contains_key(id as int),
            r matches Ok(d) ==> find_step(old(self).state(), id as int) == Some(d@),
            r matches Err(e) ==> e == ApiError::NotFound && find_step(
                old(self).state(),
                id as int,
            ) is None,
    {
        let result = self.repository.content().select(&mut self.store, id);
        match result {
            Ok(Some(entity)) => Ok(ContentDto::from_entity(entity)),
            Ok(None) => Err(ApiError::NotFound),
            Err(_) => Err(ApiError::StorageError),
        }
    }

    /// Update the record whose id the payload names. When no row matches,
    /// the unit of work is abandoned uncommitted and `NotFound` comes back.
    pub fn edit(&mut self, dto: ContentDto) -> (r: Result<ContentDto, ApiError>)
        requires
            old(self).wf(),
        ensures
            final(self).wf(),
            r is Ok <==> old(self).state().clock < i64::MAX && old(
                self,
            ).state().rows.contains_key(dto@.id),
            r matches Ok(d) ==> edit_step(old(self).state(), dto@) == Some(
                (final(self).state(), d@),
            ),
            r matches Err(e) ==> final(self).state() == old(self).state() && if old(
                self,
            ).state().clock == i64::MAX {
                e == ApiError::StorageError
            } else {
                e == ApiError::NotFound && edit_step(old(self).state(), dto@) is None
            },
    {
        // begin: the repository call below is this operation's unit of work
        let result = self.repository.content().update(&mut self.store, dto.to_entity());
        match result {
            // commit
            Ok(Some(entity)) => Ok(ContentDto::from_entity(entity)),
            // rollback: no row matched, nothing was written
            Ok(None) => Err(ApiError::NotFound),
            // rollback: the failed statement left no change behind
            Err(_) => Err(ApiError::StorageError),
        }
    }

    /// Delete the record under `id`, returning the affected count (always 1
    /// on success). A count of zero is surfaced as `NotFound`, never as a
    /// silent success.
    pub fn remove(&mut self, id: i64) -> (r: Result<u64, ApiError>)
        requires
            old(self).wf(),
        ensures
            final(self).wf(),
            r is Ok <==> old(self).state().rows.contains_key(id as int),
            r matches Ok(n) ==> n == 1 && remove_step(old(self).state(), id as int) == Some(
                final(self).state(),
            ),
            r matches Err(e) ==> e == ApiError::NotFound && final(self).state() == old(
                self,
            ).state() && remove_step(old(self).state(), id as int) is None,
    {
        // begin: the repository call below is this operation's unit of work
        let result = self.repository.content().delete(&mut self.store, id);
        match result {
            Ok(n) => {
                if n > 0 {
                    // commit
                    Ok(n)
                } else {
                    // rollback: no row matched, nothing was written
                    Err(ApiError::NotFound)
                }
            },
            Err(_) => Err(ApiError::StorageError),
        }
    }
}

/// Round trip: creating a record and then finding it under the id the
/// create returned yields exactly the wire record the create returned.
pub proof fn lemma_create_then_find(s: StoreModel, d: DtoModel)
    ensures
        ({
            let (s2, out) = create_step(s, d);
            find_step(s2, out.id) == Some(out)
        }),
{
}

/// Removing is not idempotent by contract: after a successful remove, a
/// second remove of the same id finds no matching row.
pub proof fn lemma_remove_twice(s: StoreModel, id: int)
    ensures
        remove_step(s, id) matches Some(s2) ==> remove_step(s2, id) is None,
{
}

/// An id with no row is reported absent by every targeted operation.
pub proof fn lemma_not_found(s: StoreModel, d: DtoModel, id: int)
    requires
        !s.rows.contains_key(id),
        !s.rows.contains_key(d.id),
    ensures
        find_step(s, id) is None,
        edit_step(s, d) is None,
        remove_step(s, id) is None,
{
}

/// Update semantics: after a successful edit, a find under the same id
/// yields the edited wire record; the row carries the edited fields, keeps
/// `created_at`, and its `updated_at` is strictly newer than before.
pub proof fn lemma_edit_then_find(s: StoreModel, d: DtoModel)
    requires
        s.inv(),
    ensures
        edit_step(s, d) matches Some((s2, out)) ==> {
            &&& find_step(s2, d.id) == Some(out)
            &&& out.id == d.id
            &&& out.publish_at == d.publish_at
            &&& out.draft == d.draft
            &&& out.title == d.title
            &&& out.body == d.body
            &&& s2.rows[d.id].created_at == s.rows[d.id].created_at
            &&& s2.rows[d.id].updated_at > s.rows[d.id].updated_at
        },
{
}

} // verus!
