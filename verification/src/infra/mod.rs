pub mod bootstrap;
pub mod cache;
pub mod email;
pub mod messaging;
pub mod sessions;
