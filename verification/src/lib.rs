//! Resolution and provisioning logic for the `ty` language-server binary.
//!
//! Given a worktree's settings, PATH lookup results, a cached install and
//! release metadata, the library decides which executable to launch, when a
//! download is needed, which release asset to take, and which stale version
//! directories to sweep away.  All outside work (settings lookup, PATH
//! search, file checks, network, extraction) is performed by the embedding
//! host, which drives the [`resolve::Resolver`] state machine: the machine
//! asks queries, the host answers with events, and every decision in
//! between is verified.

pub mod laws;
pub mod naming;
pub mod platform;
pub mod release;
pub mod resolve;
