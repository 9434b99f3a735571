//! Raw link-layer socket handles: open a network interface once, then read
//! and write whole Ethernet frames through a long-lived handle until it is
//! explicitly closed.
//!
//! The externally visible unit is an opaque handle value handed out by a
//! [`registry::Registry`]. Every read or write borrows the handle without
//! consuming it, so the same handle stays usable across any number of calls;
//! only an explicit close releases it. Interface resolution lives in
//! [`resolve`], the duplex frame channel (a real device channel or an
//! in-memory loopback medium for test harnesses) in [`link`], and the error
//! vocabulary in [`errors`].

pub mod errors;
pub mod laws;
pub mod link;
pub mod registry;
pub mod resolve;
