//! A single-node file storage service: the wire protocol, the storage rules
//! and the routing of one request to exactly one reply.

pub mod errors;
pub mod message;
pub mod file;
pub mod names;
pub mod manager;
pub mod memory;
pub mod handler;
pub mod commands;
