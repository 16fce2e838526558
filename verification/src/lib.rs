//! A task bookkeeping service: its routes, its requests and responses, and the
//! statements it sends to storage.

pub mod config;
pub mod envelope;
pub mod json;
pub mod laws;
pub mod request;
pub mod route;
pub mod service;
pub mod statement;
pub mod table;
pub mod task;
