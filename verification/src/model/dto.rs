use vstd::prelude::*;

use crate::model::entity::{ContentEntity, EntityModel};

verus! {

/// The wire shape of a content record: the persisted shape without the
/// server-owned audit timestamps.
#[derive(Clone, Debug, PartialEq, Eq)]
pub struct ContentDto {
    pub id: i64,
    pub publish_at: Option<i64>,
    pub draft: bool,
    pub title: String,
    pub body: String,
}

/// The mathematical value of a wire record.
pub struct DtoModel {
    pub id: int,
    pub publish_at: Option<int>,
    pub draft: bool,
    pub title: Seq<char>,
    pub body: Seq<char>,
}

impl View for ContentDto {
    type V = DtoModel;

    open spec fn view(&self) -> DtoModel {
        DtoModel {
            id: self.id as int,
            publish_at: crate::model::entity::opt_time(self.publish_at),
            draft: self.draft,
            title: self.title@,
            body: self.body@,
        }
    }
}

/// The wire view of a persisted record: the audit timestamps are dropped.
pub open spec fn dto_of(e: EntityModel) -> DtoModel {
    DtoModel { id: e.id, publish_at: e.publish_at, draft: e.draft, title: e.title, body: e.body }
}

/// The record the store persists when a wire record is inserted: the store
/// assigns `id` and sets both timestamps to `stamp`, whatever the client sent.
pub open spec fn inserted_entity(d: DtoModel, id: int, stamp: int) -> EntityModel {
    EntityModel {
        id: id,
        publish_at: d.publish_at,
        draft: d.draft,
        title: d.title,
        body: d.body,
        created_at: stamp,
        updated_at: stamp,
    }
}

/// The record the store persists when an existing row is updated from a wire
/// record: the payload fields are replaced, `created_at` is kept, and
/// `updated_at` is refreshed to `stamp`.
pub open spec fn updated_entity(prev: EntityModel, d: DtoModel, stamp: int) -> EntityModel {
    EntityModel {
        id: prev.id,
        publish_at: d.publish_at,
        draft: d.draft,
        title: d.title,
        body: d.body,
        created_at: prev.created_at,
        updated_at: stamp,
    }
}

impl ContentDto {
    /// Lift a wire record to the persisted shape. The timestamps written here
    /// are placeholders taken from the wall clock; the store overwrites them
    /// on insert and update, so only the wire fields are promised.
    pub fn to_entity(&self) -> (e: ContentEntity)
        ensures
            dto_of(e@) == self@,
    {
        ContentEntity {
            id: self.id,
            publish_at: self.publish_at,
            draft: self.draft,
            title: self.title.clone(),
            body: self.body.clone(),
            created_at: now_timestamp_millis(),
            updated_at: now_timestamp_millis(),
        }
    }

    /// Project a persisted record onto the wire shape.
    pub fn from_entity(entity: ContentEntity) -> (d: ContentDto)
        ensures
            d@ == dto_of(entity@),
    {
        ContentDto {
            id: entity.id,
            publish_at: entity.publish_at,
            draft: entity.draft,
            title: entity.title,
            body: entity.body,
        }
    }
}

/// Relies on chrono::Utc::now, reduced to milliseconds since the epoch.
/// The machine's clock decides the value, so nothing is promised of it.
#[verifier::external_body]
fn now_timestamp_millis() -> i64 {
    chrono::Utc::now().timestamp_millis()
}

} // verus!
