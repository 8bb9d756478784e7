//! Records of the database tables, as the services read and write them.
//! Timestamps are Unix times in seconds (UTC).
pub mod auth;
pub mod feature;
pub mod product;
pub mod role;
pub mod role_feature;
pub mod user;
