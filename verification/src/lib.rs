//! A CRUD service over a single product table: request validation,
//! partial-update semantics, an in-memory repository, and the uniform
//! response envelope, each with a proved contract. Identifiers and
//! timestamps come from the uuid and chrono crates through a handful of
//! trusted wrappers.

pub mod dto;
pub mod model;
pub mod repository;
pub mod route;
pub mod seed;
pub mod service;
