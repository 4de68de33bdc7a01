//! The data-access layer: the repository interface, its in-memory
//! implementation, and the bundle that the use-case layer borrows.

pub mod implement;
pub mod interface;

use vstd::prelude::*;

use crate::repository::implement::ContentImplement;
use crate::repository::interface::ContentInterface;

verus! {

/// The bundle of repositories, one per resource.
#[derive(Clone)]
pub struct Repository {
    pub content: ContentImplement,
}

/// Access to the repositories behind an abstract capability, so a test
/// double can stand in for the bundle.
pub trait RepositoryExtend {
    type ContentRepository: ContentInterface;

    fn content(&self) -> &Self::ContentRepository;
}

impl RepositoryExtend for Repository {
    type ContentRepository = ContentImplement;

    fn content(&self) -> &ContentImplement {
        &self.content
    }
}

impl Repository {
    pub fn new() -> Repository {
        Repository { content: ContentImplement::new() }
    }
}

} // verus!
