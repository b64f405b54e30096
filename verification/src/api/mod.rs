//! What the service answers over HTTP.

pub mod rest;
