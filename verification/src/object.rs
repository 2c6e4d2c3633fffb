use vstd::prelude::*;
use crate::labels::Labels;

verus! {

/// The part of a pod's specification that this library reads.
pub struct PodSpec {
    /// The node that the pod was scheduled onto, once it has been.
    pub node_name: Option<String>,
}

/// A pod, as far as label synchronization looks at it.
pub struct Pod {
    pub namespace: Option<String>,
    pub name: Option<String>,
    pub labels: Labels,
    pub spec: Option<PodSpec>,
}

/// A node, as far as label synchronization looks at it.
pub struct Node {
    pub labels: Labels,
}

impl Pod {
    /// The name of the node that the pod is assigned to, in contracts.
    pub open spec fn assigned_node(&self) -> Option<Seq<char>> {
        match self.spec {
            Some(spec) => match spec.node_name {
                Some(name) => Some(name@),
                None => None,
            },
            None => None,
        }
    }

    /// The name of the node that the pod is assigned to, if it has a
    /// specification and the specification names a node.
    pub fn node_name(&self) -> (name: Option<&String>)
        ensures
            match name {
                Some(n) => self.assigned_node() == Some(n@),
                None => self.assigned_node() is None,
            },
    {
        match &self.spec {
            Some(spec) => match &spec.node_name {
                Some(name) => Some(name),
                None => None,
            },
            None => None,
        }
    }
}

} // verus!
