//! The rules of a back-office API with users, roles, products and an audit
//! trail: validation of listing queries, authentication and role-based
//! authorization decisions, rate limiting, soft deletion and anonymization
//! of records, error responses, and the generator of CRUD modules.
use vstd::prelude::*;

pub mod errors;
pub mod generator;
pub mod ids;
pub mod infra;
pub mod listing;
pub mod middleware;
pub mod models;
pub mod modules;
pub mod query_parser;
pub mod text;

verus! {

} // verus!
