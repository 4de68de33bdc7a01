//! Cross-cutting request plumbing: the single error-translation point.

pub mod error_handler;
