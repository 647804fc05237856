//! Presence detection for a community space: poll a router's DHCP lease
//! table, negotiate the transport scheme with fallback, and keep a snapshot
//! of who is present for many readers.
//!
//! - `lease`: the lease-list request and the reading of its answer.
//! - `negotiate`: the scheme policy, with fallback from HTTPS to HTTP.
//! - `presence`: the snapshot, and how a lease list updates it.
//! - `poller`: the in-flight guard that keeps one fetch at a time.
//! - `status`: the status text shown to users.
//! - `config`: configuration types and their defaults.

use vstd::prelude::*;

pub mod config;
pub mod lease;
pub mod negotiate;
pub mod poller;
pub mod presence;
pub mod status;

verus! {

} // verus!
