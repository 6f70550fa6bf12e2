//! The wire format: how the records of the protocol are written as JSON
//! values and read back.

pub mod fields;
pub mod agent;
pub mod error;
pub mod event;
pub mod message;
pub mod request;
pub mod security;
pub mod task;
