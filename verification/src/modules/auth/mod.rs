pub mod schemas;
pub mod service;
