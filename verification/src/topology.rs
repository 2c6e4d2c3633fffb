use vstd::prelude::*;
use crate::labels::{option_view, Labels};
use crate::object::Node;

verus! {

/// Node label that names the region of a node.
pub const TOPOLOGY_REGION_LABEL: &'static str = "topology.kubernetes.io/region";

/// Node label that names the zone of a node.
pub const TOPOLOGY_ZONE_LABEL: &'static str = "topology.kubernetes.io/zone";

/// Node label that names the subzone of a node.
pub const TOPOLOGY_SUBZONE_LABEL: &'static str = "topology.kubernetes.io/subzone";

/// Where a node is placed: its region, zone and subzone, as far as its labels
/// say. Derived from the node's labels whenever it is needed, never stored.
#[derive(Clone, Debug, PartialEq, Eq)]
pub struct Topology {
    pub region: Option<String>,
    pub zone: Option<String>,
    pub subzone: Option<String>,
}

/// A topology assignment, in contracts.
pub struct TopologyView {
    pub region: Option<Seq<char>>,
    pub zone: Option<Seq<char>>,
    pub subzone: Option<Seq<char>>,
}

impl View for Topology {
    type V = TopologyView;

    open spec fn view(&self) -> TopologyView {
        TopologyView {
            region: option_view(self.region),
            zone: option_view(self.zone),
            subzone: option_view(self.subzone),
        }
    }
}

/// The value of `key` in a label mapping, if it has one.
pub open spec fn lookup(labels: Map<Seq<char>, Seq<char>>, key: Seq<char>) -> Option<Seq<char>> {
    if labels.contains_key(key) {
        Some(labels[key])
    } else {
        None
    }
}

/// The topology assignment that a node's labels give: the value of each of the
/// three topology labels, absent where the node lacks the label.
pub open spec fn topology(node: Map<Seq<char>, Seq<char>>) -> TopologyView {
    TopologyView {
        region: lookup(node, TOPOLOGY_REGION_LABEL@),
        zone: lookup(node, TOPOLOGY_ZONE_LABEL@),
        subzone: lookup(node, TOPOLOGY_SUBZONE_LABEL@),
    }
}

/// A copy of the value of `key`, if the mapping has one.
fn copy_of(labels: &Labels, key: &str) -> (value: Option<String>)
    ensures
        option_view(value) == lookup(labels@, key@),
{
    match labels.get(key) {
        Some(v) => Some(v.clone()),
        None => None,
    }
}

impl Node {
    /// Extracts the node's topology assignment from its labels.
    pub fn topology(&self) -> (assignment: Topology)
        ensures
            assignment@ == topology(self.labels@),
    {
        Topology {
            region: copy_of(&self.labels, TOPOLOGY_REGION_LABEL),
            zone: copy_of(&self.labels, TOPOLOGY_ZONE_LABEL),
            subzone: copy_of(&self.labels, TOPOLOGY_SUBZONE_LABEL),
        }
    }
}

} // verus!
