//! Node identities: the namespace-qualified names under which the server
//! keeps its data points.

use crate::rendering::{node_id_to_string, node_text};
use vstd::prelude::*;

verus! {

/// The namespace index under which the server keeps the monitored tags.
pub const TAG_NAMESPACE: u16 = 2;

/// The identity of one data point: a namespace index and a name.
#[derive(Debug, PartialEq, Eq)]
pub struct NodeIdentity {
    pub namespace: u16,
    pub name: String,
}

/// What a `NodeIdentity` stands for.
pub struct NodeIdentityView {
    pub namespace: u16,
    pub name: Seq<char>,
}

impl View for NodeIdentity {
    type V = NodeIdentityView;

    open spec fn view(&self) -> NodeIdentityView {
        NodeIdentityView { namespace: self.namespace, name: self.name@ }
    }
}

impl NodeIdentityView {
    /// The text by which this node is shown.
    pub open spec fn text(self) -> Seq<char> {
        node_text(self.namespace, self.name)
    }
}

/// The node that a tag names.
pub open spec fn tag_node(tag: Seq<char>) -> NodeIdentityView {
    NodeIdentityView { namespace: TAG_NAMESPACE, name: tag }
}

impl NodeIdentity {
    /// The node that `tag` names: the tag itself, in the tag namespace.
    pub fn for_tag(tag: &str) -> (node: NodeIdentity)
        ensures
            node@ == tag_node(tag@),
    {
        NodeIdentity { namespace: TAG_NAMESPACE, name: tag.to_owned() }
    }

    /// The text by which this node is shown.
    pub fn text(&self) -> (text: String)
        ensures
            text@ == self@.text(),
    {
        node_id_to_string(self.namespace, self.name.as_str())
    }
}

/// The nodes to monitor for a list of tags: one per tag, in the order of
/// the tags.
pub fn monitored_nodes(tags: &Vec<String>) -> (nodes: Vec<NodeIdentity>)
    ensures
        nodes.len() == tags.len(),
        forall|i: int| 0 <= i < tags.len() ==> (#[trigger] nodes[i])@ == tag_node(tags[i]@),
{
    let mut nodes: Vec<NodeIdentity> = Vec::new();
    let mut i: usize = 0;
    while i < tags.len()
        invariant
            i <= tags.len(),
            nodes.len() == i,
            forall|j: int| 0 <= j < i ==> (#[trigger] nodes[j])@ == tag_node(tags[j]@),
        decreases tags.len() - i,
    {
        nodes.push(NodeIdentity::for_tag(tags[i].as_str()));
        i += 1;
    }
    nodes
}

} // verus!
