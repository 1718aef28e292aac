//! Parsers and patterns for the common shapes of token streams.
pub mod cut;
pub mod greedy;
pub mod group;
pub mod ident;
pub mod literal;
pub mod maybe;
pub mod neg;
pub mod punct;
pub mod puncts;
pub mod rep;
pub mod delimited;
