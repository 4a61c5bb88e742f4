//! A todo resource server's core: the record types, the connection
//! configuration resolver, an in-memory storage backend and the mapping from
//! storage outcomes to HTTP responses.

pub mod config;
pub mod handlers;
pub mod memory;
pub mod models;
