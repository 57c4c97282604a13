//! The host capability that script code reaches through the document
//! extension.

use vstd::prelude::*;

verus! {

/// A DOM-like host: query, attribute lookup and mutation, all synchronous.
pub trait HostHandler {
    /// The handles of the nodes that `selector` matches.
    fn query_selector_all(&self, selector: &str) -> Vec<usize>;

    /// The value of attribute `name` on node `node_id`, if it has one.
    fn get_attribute(&self, node_id: usize, name: &str) -> Option<String>;

    /// Replaces the inner HTML of node `node_id`.
    fn inner_html_set(&self, node_id: usize, html: &str);
}

/// A host without a document: no node matches, no attribute exists, and
/// mutations are ignored.
pub struct BlitzHostHandler {}

impl HostHandler for BlitzHostHandler {
    fn query_selector_all(&self, selector: &str) -> Vec<usize> {
        Vec::new()
    }

    fn get_attribute(&self, node_id: usize, name: &str) -> Option<String> {
        None
    }

    fn inner_html_set(&self, node_id: usize, html: &str) {
    }
}

} // verus!
