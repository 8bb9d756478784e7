pub mod controller;
pub mod schemas;
pub mod service;
