//! Data model: the persisted entity shape and the wire-facing DTO shape.

pub mod dto;
pub mod entity;
