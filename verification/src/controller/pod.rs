use vstd::prelude::*;
use vstd::string::*;
use crate::diff::{diff, label_patch};
use crate::json::{json_ops, patch_ops, to_json_patch};
use crate::object::{Node, Pod};

verus! {

/// Seconds to wait before a failed attempt is tried again.
pub const RETRY_DELAY_SECS: u64 = 1;

/// Field whose absence makes a pod unusable: its namespace.
pub const NAMESPACE_KEY: &'static str = ".metadata.namespace";

/// Field whose absence makes a pod unusable: its name.
pub const NAME_KEY: &'static str = ".metadata.name";

/// What follows a reconciliation attempt.
#[derive(Clone, Copy, Debug, PartialEq, Eq, Structural)]
pub enum Action {
    /// Nothing more to do until the pod changes.
    AwaitChange,
    /// Try again after this many seconds.
    Requeue { secs: u64 },
}

/// Why a reconciliation attempt failed.
#[derive(Clone, Debug, PartialEq, Eq)]
pub enum ControllerError {
    /// A call to the cluster failed; the text is the cluster client's.
    PodLabelFailed(String),
    /// The pod lacks a field that identifies it.
    MissingObjectKey(&'static str),
}

impl ControllerError {
    /// The error in words: what failed, a colon, and the detail.
    pub fn message(&self) -> (text: String)
        ensures
            text@ == match *self {
                ControllerError::PodLabelFailed(cause) => "Failed to label pod: "@ + cause@,
                ControllerError::MissingObjectKey(key) => "MissingObjectKey: "@ + key@,
            },
    {
        match self {
            ControllerError::PodLabelFailed(cause) => String::from_str(
                "Failed to label pod: ",
            ).concat(cause.as_str()),
            ControllerError::MissingObjectKey(key) => String::from_str("MissingObjectKey: ").concat(
                key,
            ),
        }
    }
}

/// What has happened in a reconciliation attempt so far.
pub enum ReconcileEvent {
    /// The pod was delivered by the watch.
    Observed,
    /// The lookup of the pod's node has ended, with the node or with the text
    /// of the failure.
    NodeFetched(Result<Node, String>),
    /// The write of the patch has ended, well or with the text of the failure.
    PatchApplied(Result<(), String>),
}

/// What a reconciliation attempt does next.
pub enum ReconcileStep {
    /// Look up the node of this name, and come back with the outcome.
    GetNode { node_name: String },
    /// Write this patch to the pod of this namespace and name, and come back
    /// with the outcome.
    PatchPod { namespace: String, name: String, patch: json_patch::Patch },
    /// The attempt is over.
    Done(Result<Action, ControllerError>),
}

impl ReconcileStep {
    /// The attempt is over, with nothing to do until the pod changes.
    pub open spec fn is_await_change(self) -> bool {
        self matches ReconcileStep::Done(Ok(action)) && action == Action::AwaitChange
    }

    /// The attempt is over, for want of the field `key`.
    pub open spec fn is_missing_key(self, key: Seq<char>) -> bool {
        self matches ReconcileStep::Done(Err(ControllerError::MissingObjectKey(k))) && k@ == key
    }

    /// The attempt is over, failed by a call to the cluster with this text.
    pub open spec fn is_label_failed(self, cause: Seq<char>) -> bool {
        self matches ReconcileStep::Done(Err(ControllerError::PodLabelFailed(c))) && c@ == cause
    }
}

/// Decides the next step of a reconciliation attempt for one pod.
///
/// A pod without a namespace fails the attempt. A pod without a node ends it
/// with nothing to do, and no node is looked up. Else the node is looked up;
/// with the node, the label patch is computed, and an empty one ends the attempt.
/// Any other is written to the pod, which must have a name. A failed lookup or
/// write fails the attempt.
pub fn reconcile(pod: &Pod, event: &ReconcileEvent) -> (step: ReconcileStep)
    ensures
        match (pod.namespace, pod.assigned_node()) {
            (None, _) => step.is_missing_key(NAMESPACE_KEY@),
            (Some(_), None) => step.is_await_change(),
            (Some(namespace), Some(node_name)) => match *event {
                ReconcileEvent::Observed => step matches ReconcileStep::GetNode { node_name: n }
                    && n@ == node_name,
                ReconcileEvent::NodeFetched(Err(cause)) => step.is_label_failed(cause@),
                ReconcileEvent::NodeFetched(Ok(node)) => {
                    let ops = diff(pod.labels@, node.labels@);
                    if ops.len() == 0 {
                        step.is_await_change()
                    } else {
                        match pod.name {
                            None => step.is_missing_key(NAME_KEY@),
                            Some(name) => step matches ReconcileStep::PatchPod {
                                namespace: ns,
                                name: n,
                                patch,
                            } && ns@ == namespace@ && n@ == name@ && patch_ops(patch) == json_ops(
                                ops,
                            ),
                        }
                    }
                },
                ReconcileEvent::PatchApplied(Ok(_)) => step.is_await_change(),
                ReconcileEvent::PatchApplied(Err(cause)) => step.is_label_failed(cause@),
            },
        },
{
    let namespace = match &pod.namespace {
        Some(namespace) => namespace,
        None => {
            return ReconcileStep::Done(Err(ControllerError::MissingObjectKey(NAMESPACE_KEY)));
        },
    };
    let node_name = match pod.node_name() {
        Some(node_name) => node_name,
        None => {
            return ReconcileStep::Done(Ok(Action::AwaitChange));
        },
    };
    match event {
        ReconcileEvent::Observed => ReconcileStep::GetNode { node_name: node_name.clone() },
        ReconcileEvent::NodeFetched(Err(cause)) => ReconcileStep::Done(
            Err(ControllerError::PodLabelFailed(cause.clone())),
        ),
        ReconcileEvent::NodeFetched(Ok(node)) => {
            let ops = label_patch(pod, node);
            if ops.len() == 0 {
                return ReconcileStep::Done(Ok(Action::AwaitChange));
            }
            match &pod.name {
                None => ReconcileStep::Done(Err(ControllerError::MissingObjectKey(NAME_KEY))),
                Some(name) => ReconcileStep::PatchPod {
                    namespace: namespace.clone(),
                    name: name.clone(),
                    patch: to_json_patch(&ops),
                },
            }
        },
        ReconcileEvent::PatchApplied(Ok(_)) => ReconcileStep::Done(Ok(Action::AwaitChange)),
        ReconcileEvent::PatchApplied(Err(cause)) => ReconcileStep::Done(
            Err(ControllerError::PodLabelFailed(cause.clone())),
        ),
    }
}

/// What follows a failed attempt: whatever the failure, the attempt is tried
/// again after the fixed delay.
pub fn error_policy(_error: &ControllerError) -> (action: Action)
    ensures
        action == (Action::Requeue { secs: RETRY_DELAY_SECS }),
{
    Action::Requeue { secs: RETRY_DELAY_SECS }
}

} // verus!
