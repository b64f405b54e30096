//! Tasks: the entity and its errors, the model of a store, the repository
//! contract and its in-memory store.

pub mod domain;
pub mod laws;
pub mod model;
pub mod repository;
