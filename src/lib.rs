pub mod codec;
pub mod hashing;
pub mod config;
pub mod store;
pub mod account;
pub mod engine;
pub mod laws;
pub mod schema;
