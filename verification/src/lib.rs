//! A small HTTP service runtime: the replies of its endpoints, the storage
//! executor behind them, the route table with its middleware plan, and the
//! shutdown coordinator. Everything here works on plain values; sockets,
//! signals and the database driver belong to the program around it.

pub mod domain;
pub mod text;
pub mod reply;
pub mod wire;
pub mod handlers;
pub mod state;
pub mod engine;
pub mod routes;
pub mod shutdown;
pub mod config;
pub mod banner;
