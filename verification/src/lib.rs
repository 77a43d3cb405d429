//! Control of IP-addressable smart lights.
//!
//! The library holds the rules of the system: the typed lighting commands,
//! the cached status of each light and how the outcome of a device round
//! trip is merged into it, the messages of the protocol that the lights
//! speak, the store of rooms and lights with the check of every address that
//! comes in, and the decisions of the command dispatcher and of the reply
//! path. It opens no socket, starts no thread and writes no file: a program
//! around it does, and hands it plain values.

pub mod address;
pub mod errors;
pub mod ids;
pub mod input;
pub mod models;
pub mod protocol;
pub mod report;
pub mod storage;
pub mod worker;

pub use address::Ipv4;
pub use errors::{Error, ErrorModel};
pub use storage::Storage;
pub use worker::Worker;
