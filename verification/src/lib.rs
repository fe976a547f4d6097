//! A REST API over signal-cli's JSON-RPC interface: each endpoint as the JSON-RPC call it
//! makes, the counters the service keeps, and the handling of attachments and avatars
//! that are written to files before they are handed on.

pub mod cli;
pub mod daemon;
pub mod json;
pub mod routes;
pub mod rpc;
pub mod spill;
pub mod state;
pub mod text;
