//! Compiles a GraphQL schema document into typed descriptions of the
//! bindings that a Juniper server needs: the root schema alias and one
//! binding block per object type, each field with its resolver method,
//! its arguments and its Rust return type.
//!
//! The document is a value of [`schema::Document`]; the result is a list of
//! [`artifact::GeneratedArtifact`]. Every function states its result over
//! the mathematical views of these types.

pub mod artifact;
pub mod compile;
pub mod error;
pub mod generate;
pub mod nullability;
pub mod output;
pub mod schema;
pub mod text;
