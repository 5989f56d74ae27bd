//! Drives a human-oriented interactive console as a request/response
//! service and reconstructs typed records from its free-form output.
//!
//! The verified core is (a) the probe-based synchronization discipline
//! that tells when a command's output has fully arrived ([`protocol`]),
//! (b) the section/table extractor that turns one aggregated blob into
//! payload name, parameter tables and target list ([`extract`], [`table`]),
//! (c) the discovery scan for module identifiers ([`discovery`]), and
//! (d) the bookkeeping around a run: the exact partition plan
//! ([`partition`]), the per-module retry state machine ([`orchestrator`])
//! and the insert-once result collector ([`collector`]).
//!
//! The process plumbing itself — spawning the console, reader threads,
//! blocking reads, JSON artifacts — is not part of the library; it hands
//! the library plain text and takes typed records back.
pub mod collector;
pub mod discovery;
pub mod extract;
pub mod orchestrator;
pub mod partition;
pub mod protocol;
pub mod records;
pub mod table;
pub mod text;
pub mod transport;
