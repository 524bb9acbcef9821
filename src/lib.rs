//! Keeps a local, queryable copy of a remote policy store (policies,
//! templates, schema) in step with the store, and rebuilds policy sets from
//! it for an authorizer.
//!
//! - `cache`: the keyed diff cache and the two steps of a refresh
//! - `sources`: what a policy, template or schema fetch produces, and how it fails
//! - `translator`: remote items into the policy engine's objects
//! - `snapshot`: assembling and publishing policy sets
//! - `errors`: classification of the remote service's failures
//! - `shorthand`, `filter`, `store`: policy filters and store identifiers
//! - `retry`: the deadline of full-item reads
//! - `cedar`: the calls into the policy engine that the library relies on
pub mod ids;
pub mod keyed;
pub mod cache;
pub mod errors;
pub mod cedar;
pub mod translator;
pub mod sources;
pub mod snapshot;
pub mod shorthand;
pub mod filter;
pub mod retry;
pub mod store;
