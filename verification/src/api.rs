//! API clients: their configuration, and the request decisions they make
//! before and after each HTTP exchange.

/// Connection settings and request headers shared by the clients
pub mod base;
/// Constructors shared by the API clients
pub mod common;
/// Threads API client
pub mod threads;
/// Uploads API client
pub mod uploads;
/// Vector stores API client
pub mod vector_stores;
/// Videos API client
pub mod videos;
