use vstd::prelude::*;

use crate::model::entity::ContentEntity;
use crate::repository::interface::ContentInterface;
use crate::store::{Store, StoreError};

verus! {

/// The production repository for content records: it issues the store's own
/// operations against the borrowed executor.
#[derive(Clone)]
pub struct ContentImplement;

impl ContentImplement {
    pub fn new() -> ContentImplement {
        ContentImplement
    }
}

impl ContentInterface for ContentImplement {
    fn insert(&self, executor: &mut Store, entity: ContentEntity) -> Result<
        ContentEntity,
        StoreError,
    > {
        executor.insert(entity)
    }

    fn update(&self, executor: &mut Store, entity: ContentEntity) -> Result<
        Option<ContentEntity>,
        StoreError,
    > {
        executor.update(entity)
    }

    fn select(&self, executor: &mut Store, id: i64) -> Result<Option<ContentEntity>, StoreError> {
        Ok(executor.select(id))
    }

    fn delete(&self, executor: &mut Store, id: i64) -> Result<u64, StoreError> {
        Ok(executor.delete(id))
    }
}

} // verus!
