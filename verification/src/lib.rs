//! A small user-management library: a domain model for user records, an
//! abstract repository port with a precise contract, an in-memory adapter
//! that provably satisfies it, an application service that delegates to the
//! port, the decision logic of a relational storage adapter, and the
//! transport-level error mapping of the HTTP layer.

pub mod config;
pub mod domain;
pub mod handlers;
pub mod http;
pub mod model;
pub mod ids;
pub mod laws;
pub mod memory;
pub mod repository;
pub mod service;
pub mod sql;
pub mod text;
