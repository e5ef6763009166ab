//! The decisions of a global executor built on top of async-executor and
//! async-io: how its configuration is sealed, how many worker threads it
//! starts and stops, and how its worker threads are named.

pub mod config;
pub mod naming;
pub mod pool;
pub mod executor;
