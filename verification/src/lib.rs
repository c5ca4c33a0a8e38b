//! Resolution of the subgraph schemas that make up a federated GraphQL
//! supergraph.
//!
//! A supergraph configuration declares subgraphs, each pointing at a schema
//! through one of several sources: a local file, a live introspection
//! endpoint, a registry reference, or an inline SDL string. This crate
//! normalizes every subgraph down to one form — a name, a concrete SDL text,
//! its origin, an optional routing URL, and a computed flag saying whether
//! the schema uses federation-two directives — and provides the dispatcher
//! that maps each schema source to the resolver that can produce that form.

pub mod config;
pub mod detect;
pub mod error;
pub mod file;
pub mod graph_ref;
pub mod subgraph;
