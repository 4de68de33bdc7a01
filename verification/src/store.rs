//! The relational store, modelled as a verified in-memory engine: a table of
//! content rows keyed by id, an id sequence, and a monotone logical clock
//! that stamps `created_at` and `updated_at`.

use vstd::prelude::*;

use std::collections::HashMap;

use crate::model::dto::{dto_of, inserted_entity, updated_entity, DtoModel};
use crate::model::entity::{ContentEntity, EntityModel};

verus! {

broadcast use vstd::std_specs::hash::group_hash_axioms;

/// A failure surfaced by the store itself.
#[derive(Clone, Copy, Debug, PartialEq, Eq, Structural)]
pub enum StoreError {
    /// The engine has no id or timestamp left to assign.
    Exhausted,
}

/// The mathematical state of the store.
pub struct StoreModel {
    /// The table, keyed by primary key.
    pub rows: Map<int, EntityModel>,
    /// The next id the store will assign.
    pub next_id: int,
    /// The next timestamp the store will assign; strictly above every stamp
    /// already in the table.
    pub clock: int,
}

impl StoreModel {
    /// Well-formedness: ids are positive, below the id sequence, and name
    /// their own row; every row's stamps are ordered and below the clock.
    pub open spec fn inv(self) -> bool {
        &&& 1 <= self.next_id <= i64::MAX
        &&& 0 <= self.clock <= i64::MAX
        &&& forall|k: int| #[trigger] self.rows.contains_key(k) ==> {
            &&& self.rows[k].id == k
            &&& 1 <= k < self.next_id
            &&& 0 <= self.rows[k].created_at
            &&& self.rows[k].created_at <= self.rows[k].updated_at < self.clock
        }
    }

    /// Whether the store can still assign a fresh id and a fresh timestamp.
    pub open spec fn can_assign(self) -> bool {
        self.next_id < i64::MAX && self.clock < i64::MAX
    }
}

/// What a successful insert does: the store assigns the next id and stamps
/// both timestamps with the clock; only the wire fields of the argument are
/// taken over.
pub open spec fn insert_effect(
    pre: StoreModel,
    d: DtoModel,
    post: StoreModel,
    out: EntityModel,
) -> bool {
    &&& out == inserted_entity(d, pre.next_id, pre.clock)
    &&& post.rows == pre.rows.insert(pre.next_id, out)
    &&& post.next_id == pre.next_id + 1
    &&& post.clock == pre.clock + 1
}

/// What a successful update of an existing row does: the wire fields are
/// replaced, `created_at` is kept, `updated_at` is refreshed from the clock.
pub open spec fn update_effect(
    pre: StoreModel,
    d: DtoModel,
    post: StoreModel,
    out: EntityModel,
) -> bool {
    &&& pre.rows.contains_key(d.id)
    &&& out == updated_entity(pre.rows[d.id], d, pre.clock)
    &&& post.rows == pre.rows.insert(d.id, out)
    &&& post.next_id == pre.next_id
    &&& post.clock == pre.clock + 1
}

/// What a successful delete of an existing row does.
pub open spec fn delete_effect(pre: StoreModel, id: int, post: StoreModel) -> bool {
    &&& pre.rows.contains_key(id)
    &&& post.rows == pre.rows.remove(id)
    &&& post.next_id == pre.next_id
    &&& post.clock == pre.clock
}

/// The table a hash map holds, lifted to the model.
pub open spec fn rows_model(m: Map<i64, ContentEntity>) -> Map<int, EntityModel> {
    Map::new(
        |k: int| i64::MIN <= k <= i64::MAX && m.contains_key(k as i64),
        |k: int| m[k as i64]@,
    )
}

/// The in-memory store engine.
pub struct Store {
    rows: HashMap<i64, ContentEntity>,
    next_id: i64,
    clock: i64,
}

impl View for Store {
    type V = StoreModel;

    closed spec fn view(&self) -> StoreModel {
        StoreModel {
            rows: rows_model(self.rows@),
            next_id: self.next_id as int,
            clock: self.clock as int,
        }
    }
}

proof fn lemma_rows_model_contains(m: Map<i64, ContentEntity>, k: i64)
    ensures
        rows_model(m).contains_key(k as int) <==> m.contains_key(k),
        m.contains_key(k) ==> rows_model(m)[k as int] == m[k]@,
{
}

proof fn lemma_rows_model_insert(m: Map<i64, ContentEntity>, k: i64, v: ContentEntity)
    ensures
        rows_model(m.insert(k, v)) == rows_model(m).insert(k as int, v@),
{
    let lhs = rows_model(m.insert(k, v));
    let rhs = rows_model(m).insert(k as int, v@);
    assert forall|j: int| #[trigger] lhs.contains_key(j) implies rhs.contains_key(j) && lhs[j]
        == rhs[j] by {
        if j != k as int {
            assert(j as i64 != k);
        }
    }
    assert forall|j: int| #[trigger] rhs.contains_key(j) implies lhs.contains_key(j) by {
        if j != k as int {
            assert(m.contains_key(j as i64));
        }
    }
    assert(lhs =~= rhs);
}

proof fn lemma_rows_model_remove(m: Map<i64, ContentEntity>, k: i64)
    ensures
        rows_model(m.remove(k)) == rows_model(m).remove(k as int),
{
    let lhs = rows_model(m.remove(k));
    let rhs = rows_model(m).remove(k as int);
    assert forall|j: int| #[trigger] lhs.contains_key(j) implies rhs.contains_key(j) && lhs[j]
        == rhs[j] by {
        assert(j as i64 != k);
    }
    assert forall|j: int| #[trigger] rhs.contains_key(j) implies lhs.contains_key(j) by {
        assert(j as i64 != k);
    }
    assert(lhs =~= rhs);
}

impl Store {
    /// Well-formedness of the engine's state.
    pub open spec fn wf(self) -> bool {
        self@.inv()
    }

    /// An empty store: no rows, ids start at 1, the clock at 0.
    pub fn new() -> (s: Store)
        ensures
            s.wf(),
            s@.rows == Map::<int, EntityModel>::empty(),
            s@.next_id == 1,
            s@.clock == 0,
    {
        let s = Store { rows: HashMap::new(), next_id: 1, clock: 0 };
        proof {
            assert(rows_model(s.rows@) =~= Map::<int, EntityModel>::empty());
        }
        s
    }

    /// Insert a record under a fresh id, stamping both timestamps with the
    /// clock. The argument's own `id` and timestamps are ignored. Fails
    /// exactly when no fresh id or timestamp is left.
    pub fn insert(&mut self, entity: ContentEntity) -> (r: Result<ContentEntity, StoreError>)
        requires
            old(self).wf(),
        ensures
            final(self).wf(),
            r is Ok <==> old(self)@.can_assign(),
            r matches Ok(e) ==> insert_effect(old(self)@, dto_of(entity@), final(self)@, e@)
                && !old(self)@.rows.contains_key(e@.id),
            r is Err ==> final(self)@ == old(self)@,
    {
        if self.next_id == i64::MAX || self.clock == i64::MAX {
            return Err(StoreError::Exhausted);
        }
        let id = self.next_id;
        let stamp = self.clock;
        let row = ContentEntity {
            id,
            publish_at: entity.publish_at,
            draft: entity.draft,
            title: entity.title,
            body: entity.body,
            created_at: stamp,
            updated_at: stamp,
        };
        let out = row.duplicate();
        let ghost m0 = self.rows@;
        let ghost row0 = row;
        self.rows.insert(id, row);
        self.next_id = id + 1;
        self.clock = stamp + 1;
        proof {
            lemma_rows_model_insert(m0, id, row0);
        }
        Ok(out)
    }

    /// Update the row whose id matches the argument's, replacing the wire
    /// fields, keeping `created_at` and refreshing `updated_at` from the
    /// clock. `Ok(None)` reports that no row matched. Fails exactly when no
    /// fresh timestamp is left.
    pub fn update(&mut self, entity: ContentEntity) -> (r: Result<
        Option<ContentEntity>,
        StoreError,
    >)
        requires
            old(self).wf(),
        ensures
            final(self).wf(),
            r is Err <==> old(self)@.clock == i64::MAX,
            r is Err ==> final(self)@ == old(self)@,
            r matches Ok(Some(e)) ==> update_effect(old(self)@, dto_of(entity@), final(self)@, e@),
            r matches Ok(None) ==> !old(self)@.rows.contains_key(entity@.id) && final(self)@ == old(
                self,
            )@,
    {
        if self.clock == i64::MAX {
            return Err(StoreError::Exhausted);
        }
        let id = entity.id;
        proof {
            lemma_rows_model_contains(self.rows@, id);
        }
        let prev_created: Option<i64> = match self.rows.get(&id) {
            None => None,
            Some(prev) => Some(prev.created_at),
        };
        match prev_created {
            None => Ok(None),
            Some(created) => {
                let stamp = self.clock;
                let row = ContentEntity {
                    id,
                    publish_at: entity.publish_at,
                    draft: entity.draft,
                    title: entity.title,
                    body: entity.body,
                    created_at: created,
                    updated_at: stamp,
                };
                let out = row.duplicate();
                let ghost m0 = self.rows@;
                let ghost row0 = row;
                self.rows.insert(id, row);
                self.clock = stamp + 1;
                proof {
                    lemma_rows_model_insert(m0, id, row0);
                }
                Ok(Some(out))
            },
        }
    }

    /// Point lookup by primary key; the store is left as it was.
    pub fn select(&self, id: i64) -> (r: Option<ContentEntity>)
        ensures
            match r {
                Some(e) => self@.rows.contains_key(id as int) && e@ == self@.rows[id as int],
                None => !self@.rows.contains_key(id as int),
            },
    {
        proof {
            lemma_rows_model_contains(self.rows@, id);
        }
        match self.rows.get(&id) {
            None => None,
            Some(e) => Some(e.duplicate()),
        }
    }

    /// Delete by primary key, reporting how many rows were removed: 1 when
    /// the id had a row, 0 when it had none.
    pub fn delete(&mut self, id: i64) -> (r: u64)
        requires
            old(self).wf(),
        ensures
            final(self).wf(),
            old(self)@.rows.contains_key(id as int) ==> r == 1 && delete_effect(
                old(self)@,
                id as int,
                final(self)@,
            ),
            !old(self)@.rows.contains_key(id as int) ==> r == 0 && final(self)@ == old(self)@,
    {
        let ghost m0 = self.rows@;
        proof {
            lemma_rows_model_contains(m0, id);
        }
        match self.rows.remove(&id) {
            Some(_) => {
                proof {
                    lemma_rows_model_remove(m0, id);
                }
                1
            },
            None => {
                proof {
                    assert(m0.remove(id) =~= m0);
                }
                0
            },
        }
    }
}

} // verus!
