//! Verified core of a background synchronization agent.
//!
//! The agent holds a rotating bearer credential, periodically refreshes it,
//! fetches a remote catalog of car and track metadata, and mirrors new setup
//! files into a local directory tree named after the catalog entries.  This
//! crate contains the decision logic of that agent: the token-refresh
//! protocol, the catalog and credential records with their whole-record
//! update discipline, the download reconciliation algorithm, and the
//! basic-auth guard of the admin control surface.  All network and filesystem
//! traffic is performed by the surrounding application, which feeds the
//! results back into these verified functions as plain values.

pub mod auth;
pub mod catalog;
pub mod config;
pub mod engine;
pub mod errors;
pub mod models;
pub mod naming;
pub mod remote;
pub mod text;
