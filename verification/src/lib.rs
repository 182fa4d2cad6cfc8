//! A catalogue of physical and digital media (vinyl, tape, CD) with their
//! artists, tracks and label.
//!
//! The heart of the crate is the assembly of flat relational rows into complete
//! [`types::Media`] aggregates, for one entry and for a whole list of them.

pub mod config;
pub mod constants;
pub mod id;
pub mod server;
pub mod store;
pub mod text;
pub mod types;
