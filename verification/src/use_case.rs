//! The service layer: one use-case per handler action, each owning its own
//! unit of work, plus the module that bundles them for the routing layer.

pub mod content;

use vstd::prelude::*;

use crate::repository::{Repository, RepositoryExtend};
use crate::store::Store;
use crate::use_case::content::ContentUseCase;

verus! {

/// The use-case module: constructed once over the store and shared with the
/// routing layer.
pub struct Module {
    pub content: ContentUseCase<Repository>,
}

/// Access to the use-cases behind an abstract capability, so a test double
/// can stand in for the module.
pub trait ModuleExtend {
    type RepositoryModule: RepositoryExtend;

    fn content(&self) -> &ContentUseCase<Self::RepositoryModule>;
}

impl ModuleExtend for Module {
    type RepositoryModule = Repository;

    fn content(&self) -> &ContentUseCase<Repository> {
        &self.content
    }
}

impl Module {
    /// Wire the content use-case to the store through the production
    /// repository.
    pub fn new(store: Store) -> (m: Module)
        requires
            store.wf(),
        ensures
            m.content.wf(),
            m.content.state() == store@,
    {
        Module { content: ContentUseCase::new(store, Repository::new()) }
    }
}

} // verus!
