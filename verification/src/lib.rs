//! The core of an authenticated user-directory service: credential
//! hashing, a signed time-bounded token codec, the authorization gate with
//! its self-only mutation rule, a dynamic partial-update statement builder,
//! pagination, and the decision functions of the directory operations.
//!
//! The core is transport- and store-agnostic: it never reads a clock, the
//! network or a database. Callers pass the current epoch second, header
//! values and store results in as plain values, and every rule applied to
//! them is stated in contracts and machine-checked.

pub mod auth;
pub mod config;
pub mod errors;
pub mod hash;
pub mod health;
pub mod jwt;
pub mod middleware;
pub mod models;
pub mod pagination;
pub mod proto;
pub mod service;
pub mod update_builder;
pub mod validation;
