//! Permission-scoped tabular query/filter/export engine together with the
//! token-based session lifecycle that authenticates the actor driving it.
//!
//! The crate is organised leaves-first: plain data models (errors, actors,
//! permissions), then the filter-key convention and date handling, then the
//! query engine, export managers and the session state machine.

use vstd::prelude::*;

pub mod error;
pub mod text;
pub mod authz;
pub mod model;
pub mod actor;
pub mod page;
pub mod filter;
pub mod input;
pub mod dates;
pub mod query;
pub mod rows;
pub mod context;
pub mod engine;
pub mod session;
pub mod admin_table;
pub mod export;
pub mod registry;
pub mod util;
pub mod auth_api;
pub mod validation;
pub mod workflow;

verus! {

/// Paging defaults used when a request carries no explicit page size.
pub const DEFAULT_PER_PAGE: i64 = 15;

/// Hard ceiling on the page size a single request may ask for.
pub const MAX_PER_PAGE: i64 = 500;

} // verus!
