use vstd::prelude::*;
use vstd::string::*;
use crate::labels::{option_view, Labels};
use crate::object::{Node, Pod};
use crate::topology::{
    lookup, topology, Topology, TopologyView, TOPOLOGY_REGION_LABEL, TOPOLOGY_SUBZONE_LABEL,
    TOPOLOGY_ZONE_LABEL,
};

verus! {

/// Pod label that receives the region.
pub const REGION_LABEL: &'static str = "region";

/// Pod label that receives the zone.
pub const ZONE_LABEL: &'static str = "zone";

/// Pod label that receives the subzone.
pub const SUBZONE_LABEL: &'static str = "subzone";

/// Whether an operation introduces a label or corrects one that is there.
#[derive(Clone, Copy, Debug, PartialEq, Eq, Structural)]
pub enum OpKind {
    Add,
    Replace,
}

/// One operation of a label patch, in contracts.
pub struct LabelOp {
    pub kind: OpKind,
    pub label: Seq<char>,
    pub value: Seq<char>,
}

/// One operation of a label patch: set the pod label `label` to `value`.
#[derive(Clone, Debug, PartialEq, Eq)]
pub struct PatchOp {
    pub kind: OpKind,
    pub label: String,
    pub value: String,
}

impl View for PatchOp {
    type V = LabelOp;

    open spec fn view(&self) -> LabelOp {
        LabelOp { kind: self.kind, label: self.label@, value: self.value@ }
    }
}

/// The operations of a patch, each by its view.
pub open spec fn ops_view(ops: Seq<PatchOp>) -> Seq<LabelOp> {
    Seq::new(ops.len(), |i: int| ops[i]@)
}

/// The operation that brings the pod label `label` to `value`: none where the
/// pod has that value already, an add where it lacks the label, a replace where
/// it has another value.
pub open spec fn label_op(pod: Map<Seq<char>, Seq<char>>, label: Seq<char>, value: Seq<char>)
    -> Option<LabelOp> {
    if !pod.contains_key(label) {
        Some(LabelOp { kind: OpKind::Add, label, value })
    } else if pod[label] != value {
        Some(LabelOp { kind: OpKind::Replace, label, value })
    } else {
        None
    }
}

/// The operations for one part of a topology assignment: none where the part
/// is absent, else what [`label_op`] gives for its value.
pub open spec fn assignment_ops(
    pod: Map<Seq<char>, Seq<char>>,
    label: Seq<char>,
    value: Option<Seq<char>>,
) -> Seq<LabelOp> {
    match value {
        Some(v) => match label_op(pod, label, v) {
            Some(op) => seq![op],
            None => seq![],
        },
        None => seq![],
    }
}

/// The label patch that brings a pod's labels in line with a topology
/// assignment: the operations for the region, then the zone, then the subzone.
pub open spec fn assignment_diff(pod: Map<Seq<char>, Seq<char>>, assignment: TopologyView) -> Seq<
    LabelOp,
> {
    assignment_ops(pod, REGION_LABEL@, assignment.region) + assignment_ops(
        pod,
        ZONE_LABEL@,
        assignment.zone,
    ) + assignment_ops(pod, SUBZONE_LABEL@, assignment.subzone)
}

/// The label patch that brings a pod's labels in line with a node's topology
/// labels.
pub open spec fn diff(pod: Map<Seq<char>, Seq<char>>, node: Map<Seq<char>, Seq<char>>) -> Seq<
    LabelOp,
> {
    assignment_diff(pod, topology(node))
}

/// Computes the operation that brings the pod label `label` to `value`.
pub fn add_or_update_label(pod: &Pod, label: &str, value: &String) -> (op: Option<PatchOp>)
    ensures
        match op {
            Some(o) => label_op(pod.labels@, label@, value@) == Some(o@),
            None => label_op(pod.labels@, label@, value@) is None,
        },
{
    if let Some(pod_label) = pod.labels.get(label) {
        if *pod_label == *value {
            return None;
        }
        return Some(
            PatchOp {
                kind: OpKind::Replace,
                label: String::from_str(label),
                value: value.clone(),
            },
        );
    }
    Some(PatchOp { kind: OpKind::Add, label: String::from_str(label), value: value.clone() })
}

/// Appends to `ops` the operations for one part of a topology assignment.
fn push_assignment_ops(ops: &mut Vec<PatchOp>, pod: &Pod, label: &str, value: &Option<String>)
    ensures
        ops_view(final(ops)@) == ops_view(old(ops)@) + assignment_ops(
            pod.labels@,
            label@,
            option_view(*value),
        ),
{
    if let Some(v) = value {
        if let Some(op) = add_or_update_label(pod, label, v) {
            ops.push(op);
        }
    }
}

/// Computes the label patch for a pod under a topology assignment: see
/// [`assignment_diff`].
pub fn assignment_patch(pod: &Pod, assignment: &Topology) -> (ops: Vec<PatchOp>)
    ensures
        ops_view(ops@) == assignment_diff(pod.labels@, assignment@),
{
    let mut ops: Vec<PatchOp> = Vec::new();
    push_assignment_ops(&mut ops, pod, REGION_LABEL, &assignment.region);
    push_assignment_ops(&mut ops, pod, ZONE_LABEL, &assignment.zone);
    push_assignment_ops(&mut ops, pod, SUBZONE_LABEL, &assignment.subzone);
    ops
}

/// Computes the label patch for a pod on a node: see [`diff`].
pub fn label_patch(pod: &Pod, node: &Node) -> (ops: Vec<PatchOp>)
    ensures
        ops_view(ops@) == diff(pod.labels@, node.labels@),
{
    let assignment = node.topology();
    assignment_patch(pod, &assignment)
}

/// What a patch makes of a label mapping: each operation, first to last, sets its
/// label to its value.
pub open spec fn apply(labels: Map<Seq<char>, Seq<char>>, ops: Seq<LabelOp>) -> Map<
    Seq<char>,
    Seq<char>,
>
    decreases ops.len(),
{
    if ops.len() == 0 {
        labels
    } else {
        apply(labels, ops.drop_last()).insert(ops.last().label, ops.last().value)
    }
}

/// Applies a patch to a label mapping: see [`apply`].
pub fn apply_patch(labels: &mut Labels, ops: &Vec<PatchOp>)
    ensures
        final(labels)@ == apply(old(labels)@, ops_view(ops@)),
{
    let ghost start = labels@;
    let mut i: usize = 0;
    while i < ops.len()
        invariant
            i <= ops.len(),
            labels@ == apply(start, ops_view(ops@).take(i as int)),
        decreases ops.len() - i,
    {
        let op = &ops[i];
        labels.insert(op.label.clone(), op.value.clone());
        proof {
            let next = ops_view(ops@).take(i + 1);
            assert(next.drop_last() =~= ops_view(ops@).take(i as int));
        }
        i += 1;
    }
    assert(ops_view(ops@).take(i as int) =~= ops_view(ops@));
}

/// One topology key needs no operation: the node lacks it, or the pod carries
/// the matching label with the node's value.
pub open spec fn key_in_sync(
    pod: Map<Seq<char>, Seq<char>>,
    node: Map<Seq<char>, Seq<char>>,
    node_key: Seq<char>,
    label: Seq<char>,
) -> bool {
    node.contains_key(node_key) ==> pod.contains_key(label) && pod[label] == node[node_key]
}

/// For every topology key present on the node, the pod carries the matching
/// label with an equal value.
pub open spec fn in_sync(pod: Map<Seq<char>, Seq<char>>, node: Map<Seq<char>, Seq<char>>) -> bool {
    &&& key_in_sync(pod, node, TOPOLOGY_REGION_LABEL@, REGION_LABEL@)
    &&& key_in_sync(pod, node, TOPOLOGY_ZONE_LABEL@, ZONE_LABEL@)
    &&& key_in_sync(pod, node, TOPOLOGY_SUBZONE_LABEL@, SUBZONE_LABEL@)
}

/// Whether a patch holds an operation on `label`.
pub open spec fn has_op_for(ops: Seq<LabelOp>, label: Seq<char>) -> bool {
    exists|i: int| 0 <= i < ops.len() && (#[trigger] ops[i]).label == label
}

/// The place of a managed label in the fixed order: region, zone, subzone. Any
/// other label comes after them.
pub open spec fn label_rank(label: Seq<char>) -> int {
    if label == REGION_LABEL@ {
        0
    } else if label == ZONE_LABEL@ {
        1
    } else if label == SUBZONE_LABEL@ {
        2
    } else {
        3
    }
}

/// The three managed pod labels are three different strings.
pub proof fn managed_labels_differ()
    ensures
        REGION_LABEL@ != ZONE_LABEL@,
        REGION_LABEL@ != SUBZONE_LABEL@,
        ZONE_LABEL@ != SUBZONE_LABEL@,
{
    reveal_strlit("region");
    reveal_strlit("zone");
    reveal_strlit("subzone");
    assert(REGION_LABEL@.len() == 6);
    assert(ZONE_LABEL@.len() == 4);
    assert(SUBZONE_LABEL@.len() == 7);
}

/// The patch is empty exactly when, for every topology key present on the node,
/// the pod already carries the matching label with an equal value.
pub proof fn diff_empty_iff_in_sync(
    pod: Map<Seq<char>, Seq<char>>,
    node: Map<Seq<char>, Seq<char>>,
)
    ensures
        diff(pod, node).len() == 0 <==> in_sync(pod, node),
{
}

/// A node without any of the three topology labels gives the empty patch,
/// whatever the pod.
pub proof fn diff_without_topology_is_empty(
    pod: Map<Seq<char>, Seq<char>>,
    node: Map<Seq<char>, Seq<char>>,
)
    requires
        !node.contains_key(TOPOLOGY_REGION_LABEL@),
        !node.contains_key(TOPOLOGY_ZONE_LABEL@),
        !node.contains_key(TOPOLOGY_SUBZONE_LABEL@),
    ensures
        diff(pod, node) == Seq::<LabelOp>::empty(),
{
}

/// The patch holds an operation on a managed label exactly when the node has
/// the topology key and the pod lacks the label or has another value. The three
/// labels do not depend on each other.
pub proof fn diff_has_op_iff_out_of_sync(
    pod: Map<Seq<char>, Seq<char>>,
    node: Map<Seq<char>, Seq<char>>,
)
    ensures
        has_op_for(diff(pod, node), REGION_LABEL@) <==> !key_in_sync(
            pod,
            node,
            TOPOLOGY_REGION_LABEL@,
            REGION_LABEL@,
        ),
        has_op_for(diff(pod, node), ZONE_LABEL@) <==> !key_in_sync(
            pod,
            node,
            TOPOLOGY_ZONE_LABEL@,
            ZONE_LABEL@,
        ),
        has_op_for(diff(pod, node), SUBZONE_LABEL@) <==> !key_in_sync(
            pod,
            node,
            TOPOLOGY_SUBZONE_LABEL@,
            SUBZONE_LABEL@,
        ),
{
    managed_labels_differ();
    let region = assignment_ops(pod, REGION_LABEL@, lookup(node, TOPOLOGY_REGION_LABEL@));
    let zone = assignment_ops(pod, ZONE_LABEL@, lookup(node, TOPOLOGY_ZONE_LABEL@));
    let subzone = assignment_ops(pod, SUBZONE_LABEL@, lookup(node, TOPOLOGY_SUBZONE_LABEL@));
    let d = diff(pod, node);
    if region.len() == 1 {
        assert(d[0] == region[0]);
    }
    if zone.len() == 1 {
        assert(d[region.len() as int] == zone[0]);
    }
    if subzone.len() == 1 {
        assert(d[(region.len() + zone.len()) as int] == subzone[0]);
    }
}

/// Every operation of the patch is on a managed label, and the operations come
/// in the fixed order: region before zone before subzone.
pub proof fn diff_in_fixed_order(pod: Map<Seq<char>, Seq<char>>, node: Map<Seq<char>, Seq<char>>)
    ensures
        forall|i: int|
            0 <= i < diff(pod, node).len() ==> label_rank(#[trigger] diff(pod, node)[i].label) < 3,
        forall|i: int, j: int|
            0 <= i < j < diff(pod, node).len() ==> label_rank(
                #[trigger] diff(pod, node)[i].label,
            ) < label_rank(#[trigger] diff(pod, node)[j].label),
{
    managed_labels_differ();
}

/// Every operation of the patch carries the node's value for its topology key,
/// and is an add exactly when the pod lacks the label.
pub proof fn diff_ops_carry_node_values(
    pod: Map<Seq<char>, Seq<char>>,
    node: Map<Seq<char>, Seq<char>>,
    i: int,
)
    requires
        0 <= i < diff(pod, node).len(),
    ensures
        ({
            let op = diff(pod, node)[i];
            let node_key = if op.label == REGION_LABEL@ {
                TOPOLOGY_REGION_LABEL@
            } else if op.label == ZONE_LABEL@ {
                TOPOLOGY_ZONE_LABEL@
            } else {
                TOPOLOGY_SUBZONE_LABEL@
            };
            &&& node.contains_key(node_key)
            &&& op.value == node[node_key]
            &&& op.kind == OpKind::Add <==> !pod.contains_key(op.label)
            &&& op.kind == OpKind::Replace <==> pod.contains_key(op.label) && pod[op.label]
                != op.value
        }),
{
    managed_labels_differ();
}

/// Applying the operations for one topology key sets the key's label to the
/// node's value and leaves every other label as it was.
proof fn apply_assignment_ops(
    labels: Map<Seq<char>, Seq<char>>,
    pod: Map<Seq<char>, Seq<char>>,
    node: Map<Seq<char>, Seq<char>>,
    node_key: Seq<char>,
    label: Seq<char>,
)
    requires
        labels.contains_key(label) == pod.contains_key(label),
        pod.contains_key(label) ==> labels[label] == pod[label],
    ensures
        ({
            let after = apply(labels, assignment_ops(pod, label, lookup(node, node_key)));
            &&& key_in_sync(after, node, node_key, label)
            &&& forall|other: Seq<char>|
                other != label ==> #[trigger] after.contains_key(other) == labels.contains_key(
                    other,
                )
            &&& forall|other: Seq<char>| other != label ==> #[trigger] after[other] == labels[other]
        }),
{
    let ops = assignment_ops(pod, label, lookup(node, node_key));
    if ops.len() == 1 {
        assert(apply(labels, ops.drop_last()) == labels);
    }
}

/// Applying two patches one after the other is applying their concatenation.
proof fn apply_concat(labels: Map<Seq<char>, Seq<char>>, first: Seq<LabelOp>, second: Seq<LabelOp>)
    ensures
        apply(labels, first + second) == apply(apply(labels, first), second),
    decreases second.len(),
{
    if second.len() > 0 {
        assert((first + second).drop_last() =~= first + second.drop_last());
        apply_concat(labels, first, second.drop_last());
    }
}

/// Idempotence: once the patch for a node has been applied to a pod's labels,
/// the patch for the same node is empty.
pub proof fn diff_after_apply_is_empty(
    pod: Map<Seq<char>, Seq<char>>,
    node: Map<Seq<char>, Seq<char>>,
)
    ensures
        in_sync(apply(pod, diff(pod, node)), node),
        diff(apply(pod, diff(pod, node)), node) == Seq::<LabelOp>::empty(),
{
    managed_labels_differ();
    let region = assignment_ops(pod, REGION_LABEL@, lookup(node, TOPOLOGY_REGION_LABEL@));
    let zone = assignment_ops(pod, ZONE_LABEL@, lookup(node, TOPOLOGY_ZONE_LABEL@));
    let subzone = assignment_ops(pod, SUBZONE_LABEL@, lookup(node, TOPOLOGY_SUBZONE_LABEL@));
    let after_region = apply(pod, region);
    let after_zone = apply(after_region, zone);
    let after_subzone = apply(after_zone, subzone);
    apply_assignment_ops(pod, pod, node, TOPOLOGY_REGION_LABEL@, REGION_LABEL@);
    apply_assignment_ops(after_region, pod, node, TOPOLOGY_ZONE_LABEL@, ZONE_LABEL@);
    apply_assignment_ops(after_zone, pod, node, TOPOLOGY_SUBZONE_LABEL@, SUBZONE_LABEL@);
    apply_concat(pod, region, zone);
    apply_concat(pod, region + zone, subzone);
    diff_empty_iff_in_sync(after_subzone, node);
}

} // verus!
