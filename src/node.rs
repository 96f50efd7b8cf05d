//! Nodes.

use crate::slug::{namespace_of, split};
use vstd::prelude::*;

verus! {

/// A single node.
#[derive(Clone, Debug, PartialEq)]
pub struct Node {
    /// The unique identifier of the node.
    pub id: i32,
    /// The node's unique slug. Unlike the `id`, this can change.
    pub slug: String,
    /// The node's title.
    pub title: String,
    /// The actual content of the node.
    pub body: String,
}

impl Node {
    /// Gets the namespace the node is in.
    pub fn namespace(&self) -> (r: Option<&str>)
        ensures
            r.deep_view() == namespace_of(self.slug@),
    {
        let (namespace, _) = split(self.slug.as_str());
        namespace
    }
}

} // verus!
