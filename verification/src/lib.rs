//! The decision logic of a desktop shell that supervises a backend service and
//! routes custom-scheme launch URLs into a single launch-path slot.
//!
//! Everything here works on plain values. The surrounding program owns the
//! process handles, the window and the lock around the store; it feeds events
//! in and carries the answers out.

pub mod launch_path;
pub mod router;
pub mod scheme_url;
pub mod supervisor;
