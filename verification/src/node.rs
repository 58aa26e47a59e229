//! The platform node representation consumed by the rendering layer.
//!
//! The non-interactive render path only ever reads a node's canonical
//! string serialization, so a node is carried here as that string.

use vstd::prelude::*;

verus! {

/// A rendered platform node (an element, text node, or comment),
/// carried as its canonical string serialization.
pub struct Node {
    html: String,
}

impl View for Node {
    type V = Seq<char>;

    closed spec fn view(&self) -> Seq<char> {
        self.html@
    }
}

impl Node {
    /// Wraps an already-rendered fragment as a node.
    pub fn new(html: String) -> (r: Node)
        ensures
            r@ == html@,
    {
        Node { html }
    }

    /// The node's canonical string serialization.
    pub fn to_html(&self) -> (r: String)
        ensures
            r@ == self@,
    {
        self.html.clone()
    }
}

impl Clone for Node {
    fn clone(&self) -> (r: Self)
        ensures
            r@ == self@,
    {
        Node { html: self.html.clone() }
    }
}

impl PartialEq for Node {
    fn eq(&self, other: &Self) -> (r: bool) {
        self.html == other.html
    }
}

impl vstd::std_specs::cmp::PartialEqSpecImpl for Node {
    open spec fn obeys_eq_spec() -> bool {
        true
    }

    open spec fn eq_spec(&self, other: &Self) -> bool {
        self@ == other@
    }
}

} // verus!
