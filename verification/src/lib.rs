//! A small content service: create, find, edit and remove article records,
//! each operation running as one unit of work against a relational store.
//!
//! The store itself is modelled by a verified in-memory engine; the layers
//! above it — entity/DTO mapping, the repository interface, the use-case
//! orchestration and the error translation — carry full contracts.

pub mod middleware;
pub mod model;
pub mod repository;
pub mod store;
pub mod use_case;
