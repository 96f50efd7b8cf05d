//! Slugs, namespaces and the rules that keep a node's slug in step with its
//! title and namespace.

pub mod error;
pub mod node;
pub mod params;
pub mod patch;
pub mod resolve;
pub mod slug;
