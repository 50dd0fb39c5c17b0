//! Queries a Hyper-V virtual machine's IP address and records it in a JSON
//! document, with per-user default parameters kept in a settings file.
//!
//! The library holds the verified logic: resolving effective parameters from
//! command-line values and stored defaults, building the hypervisor query,
//! trimming its output, and the read-modify-write of one field of a JSON
//! object. File and process I/O stay with the caller.

pub mod document;
pub mod errors;
pub mod jsonio;
pub mod query;
pub mod resolve;
pub mod settings;
