//! The core of a small task service: the task entity, the repository
//! contract with its in-memory store, the statements of the relational store
//! and what their outcomes mean, the answers of the HTTP endpoints, and the
//! settings of the service, each with a verified contract.
//!
//! What touches the outside world (the database, the network, the
//! environment, the lock around a shared store) is left to the program that
//! uses this library; it hands over plain values and acts on the answers.

pub mod api;
pub mod config;
pub mod decimal;
pub mod tasks;
