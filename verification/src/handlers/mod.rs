//! The handlers: each turns request-derived values into a reply.

pub mod db_handler;
pub mod outbound_handler;
pub mod simple_handler;
