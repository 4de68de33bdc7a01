use vstd::prelude::*;

verus! {

/// The persisted shape of one content record, audit timestamps included.
/// Timestamps are kept as plain integers (milliseconds, or the engine's
/// logical ticks); the store is the authority for `created_at` and
/// `updated_at`.
#[derive(Clone, Debug, PartialEq, Eq)]
pub struct ContentEntity {
    pub id: i64,
    pub publish_at: Option<i64>,
    pub draft: bool,
    pub title: String,
    pub body: String,
    pub created_at: i64,
    pub updated_at: i64,
}

/// The mathematical value of a persisted record.
pub struct EntityModel {
    pub id: int,
    pub publish_at: Option<int>,
    pub draft: bool,
    pub title: Seq<char>,
    pub body: Seq<char>,
    pub created_at: int,
    pub updated_at: int,
}

/// The mathematical value of an optional timestamp.
pub open spec fn opt_time(o: Option<i64>) -> Option<int> {
    match o {
        Some(t) => Some(t as int),
        None => None,
    }
}

impl View for ContentEntity {
    type V = EntityModel;

    open spec fn view(&self) -> EntityModel {
        EntityModel {
            id: self.id as int,
            publish_at: opt_time(self.publish_at),
            draft: self.draft,
            title: self.title@,
            body: self.body@,
            created_at: self.created_at as int,
            updated_at: self.updated_at as int,
        }
    }
}

impl ContentEntity {
    /// A field-for-field copy whose value is known to equal the original.
    pub fn duplicate(&self) -> (r: ContentEntity)
        ensures
            r@ == self@,
    {
        ContentEntity {
            id: self.id,
            publish_at: self.publish_at,
            draft: self.draft,
            title: self.title.clone(),
            body: self.body.clone(),
            created_at: self.created_at,
            updated_at: self.updated_at,
        }
    }
}

} // verus!
