pub mod audit;
pub mod auth;
pub mod debug;
pub mod product;
pub mod role;
pub mod user;
