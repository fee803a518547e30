//! Verified core of a multi-tenant authentication service: tenant and user
//! registration, password checks, sign-in token issuance, JWT signing and
//! verification, and the symmetric protection of secrets stored at rest.
//!
//! HTTP routing, configuration and database access live outside this crate;
//! here every handler is a state machine that asks for database work and is
//! told what came back.

pub mod controllers;
pub mod middlewares;
pub mod models;
pub mod primitives;
pub mod utils;
