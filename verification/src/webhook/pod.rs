use vstd::prelude::*;
use crate::diff::{
    apply, diff, diff_after_apply_is_empty, diff_empty_iff_in_sync, in_sync, label_patch,
};
use crate::json::{encode_patch, json_ops, patch_json, to_json_patch};
use crate::labels::option_view;
use crate::object::{Node, Pod};

verus! {

/// An admission request, once its envelope has been read: the identifier that
/// the answer must repeat, and the candidate pod.
pub struct AdmissionRequest {
    pub uid: String,
    pub object: Option<Pod>,
}

/// The answer to an admission request.
#[derive(Clone, Debug, PartialEq, Eq)]
pub struct AdmissionResponse {
    /// Identifier of the request that this answers; empty where none could be read.
    pub uid: String,
    pub allowed: bool,
    /// Why the request was not allowed.
    pub reason: Option<String>,
    /// A JSON Patch document to apply to the object before it is persisted.
    pub patch: Option<Vec<u8>>,
}

/// An admission response, in contracts.
pub struct ResponseView {
    pub uid: Seq<char>,
    pub allowed: bool,
    pub reason: Option<Seq<char>>,
    pub patch: Option<Seq<u8>>,
}

impl View for AdmissionResponse {
    type V = ResponseView;

    open spec fn view(&self) -> ResponseView {
        ResponseView {
            uid: self.uid@,
            allowed: self.allowed,
            reason: option_view(self.reason),
            patch: bytes_view(self.patch),
        }
    }
}

/// The response that allows the request `uid` and changes nothing.
pub open spec fn allow_unmodified(uid: Seq<char>) -> ResponseView {
    ResponseView { uid, allowed: true, reason: None, patch: None }
}

/// The response to a request that could not be read.
pub open spec fn invalid_request(reason: Seq<char>) -> ResponseView {
    ResponseView { uid: Seq::empty(), allowed: false, reason: Some(reason), patch: None }
}

/// A response with its patch replaced: by the encoded patch, or by none.
pub open spec fn with_patch(res: ResponseView, encoded: Option<Seq<u8>>) -> ResponseView {
    ResponseView { patch: encoded, ..res }
}

/// The patch portion of the answer for a pod on a node: none where the label
/// patch is empty, else the label patch as a JSON Patch document in bytes.
pub open spec fn encoded_diff(pod: Map<Seq<char>, Seq<char>>, node: Map<Seq<char>, Seq<char>>)
    -> Option<Seq<u8>> {
    let ops = diff(pod, node);
    if ops.len() == 0 {
        None
    } else {
        Some(patch_json(json_ops(ops)))
    }
}

/// A response after the hook has looked at a pod on a node: its patch is the
/// label patch alone, whatever patch it carried before; nothing else changes.
pub open spec fn mutated(
    res: ResponseView,
    pod: Map<Seq<char>, Seq<char>>,
    node: Map<Seq<char>, Seq<char>>,
) -> ResponseView {
    with_patch(res, encoded_diff(pod, node))
}

/// A sequence of bytes that may be absent, by its view.
pub open spec fn bytes_view(bytes: Option<Vec<u8>>) -> Option<Seq<u8>> {
    match bytes {
        Some(b) => Some(b@),
        None => None,
    }
}

impl AdmissionResponse {
    /// The response to a request that could not be read: not allowed, with the
    /// reason, and without the identifier of any request.
    pub fn invalid(reason: String) -> (res: AdmissionResponse)
        ensures
            res@ == invalid_request(reason@),
    {
        AdmissionResponse { uid: String::new(), allowed: false, reason: Some(reason), patch: None }
    }

    /// The response that allows a request and changes nothing.
    pub fn from_request(req: &AdmissionRequest) -> (res: AdmissionResponse)
        ensures
            res@ == allow_unmodified(req.uid@),
    {
        AdmissionResponse { uid: req.uid.clone(), allowed: true, reason: None, patch: None }
    }

    /// Replaces the response's patch: by the encoded patch, or by none.
    pub fn with_encoded_patch(self, encoded: Option<Vec<u8>>) -> (res: AdmissionResponse)
        ensures
            res@ == with_patch(self@, bytes_view(encoded)),
    {
        AdmissionResponse {
            uid: self.uid,
            allowed: self.allowed,
            reason: self.reason,
            patch: encoded,
        }
    }
}

/// Gives a response the patch that brings the pod's labels in line with the
/// node's topology labels, in place of any patch that it carried.
///
/// A pod that is in line already gets no patch. Nothing but the patch changes:
/// a labelling problem never turns an allowed request into a refused one.
pub fn mutate(res: AdmissionResponse, pod: &Pod, node: &Node) -> (out: AdmissionResponse)
    ensures
        out@ == mutated(res@, pod.labels@, node.labels@),
{
    let ops = label_patch(pod, node);
    if ops.len() == 0 {
        return res.with_encoded_patch(None);
    }
    let patch = to_json_patch(&ops);
    res.with_encoded_patch(encode_patch(&patch))
}

/// What has happened to an admission request so far.
pub enum HookEvent {
    /// The request has arrived.
    Received,
    /// The lookup of the pod's node has ended, with the node or with the text
    /// of the failure.
    NodeFetched(Result<Node, String>),
}

/// What the admission hook does next.
pub enum HookStep {
    /// Look up the node of this name, and come back with the outcome.
    GetNode { node_name: String },
    /// Answer the request.
    Respond(AdmissionResponse),
}

/// Decides the next step of the admission hook for one request.
///
/// `body` is the request, or the text of the failure to read it. A request that
/// could not be read is answered as invalid. Any other is allowed: unmodified
/// where it has no pod, the pod has no node, or the node's lookup failed; else
/// with the patch that [`mutate`] gives. The node is looked up once, and only
/// for a pod that names one.
pub fn mutate_handler(body: &Result<AdmissionRequest, String>, event: &HookEvent) -> (step:
    HookStep)
    ensures
        match *body {
            Err(text) => step matches HookStep::Respond(res) && res@ == invalid_request(text@),
            Ok(req) => match req.object {
                None => step matches HookStep::Respond(res) && res@ == allow_unmodified(req.uid@),
                Some(pod) => match pod.assigned_node() {
                    None => step matches HookStep::Respond(res) && res@ == allow_unmodified(
                        req.uid@,
                    ),
                    Some(name) => match *event {
                        HookEvent::Received => step matches HookStep::GetNode { node_name }
                            && node_name@ == name,
                        HookEvent::NodeFetched(Err(_)) => step matches HookStep::Respond(res)
                            && res@ == allow_unmodified(req.uid@),
                        HookEvent::NodeFetched(Ok(node)) => step matches HookStep::Respond(res)
                            && res@ == mutated(
                            allow_unmodified(req.uid@),
                            pod.labels@,
                            node.labels@,
                        ),
                    },
                },
            },
        },
{
    let req = match body {
        Ok(req) => req,
        Err(text) => {
            return HookStep::Respond(AdmissionResponse::invalid(text.clone()));
        },
    };
    let res = AdmissionResponse::from_request(req);
    if let Some(pod) = &req.object {
        if let Some(node_name) = pod.node_name() {
            match event {
                HookEvent::Received => {
                    return HookStep::GetNode { node_name: node_name.clone() };
                },
                HookEvent::NodeFetched(Ok(node)) => {
                    return HookStep::Respond(mutate(res, pod, node));
                },
                HookEvent::NodeFetched(Err(_)) => {},
            }
        }
    }
    HookStep::Respond(res)
}

/// The hook changes nothing but the patch: a request that was allowed stays
/// allowed, whatever the labels.
pub proof fn mutated_changes_only_the_patch(
    res: ResponseView,
    pod: Map<Seq<char>, Seq<char>>,
    node: Map<Seq<char>, Seq<char>>,
)
    ensures
        mutated(res, pod, node).uid == res.uid,
        mutated(res, pod, node).allowed == res.allowed,
        mutated(res, pod, node).reason == res.reason,
{
}

/// The patch that the hook gives does not depend on the response that came
/// in: it is the label patch of the pod on the node, encoded, or none.
pub proof fn mutated_patch_is_the_label_patch(
    res: ResponseView,
    pod: Map<Seq<char>, Seq<char>>,
    node: Map<Seq<char>, Seq<char>>,
)
    ensures
        mutated(res, pod, node).patch == encoded_diff(pod, node),
        mutated(res, pod, node).patch is Some ==> mutated(res, pod, node).patch == Some(
            patch_json(json_ops(diff(pod, node))),
        ),
{
}

/// The hook gives no patch exactly when, for every topology key present on the
/// node, the pod already carries the matching label with an equal value.
pub proof fn mutated_patch_absent_iff_in_sync(
    res: ResponseView,
    pod: Map<Seq<char>, Seq<char>>,
    node: Map<Seq<char>, Seq<char>>,
)
    ensures
        mutated(res, pod, node).patch is None <==> in_sync(pod, node),
{
    diff_empty_iff_in_sync(pod, node);
}

/// Once the label patch for a node has been applied to a pod's labels, the hook
/// gives no patch for the pod on that node, whatever the response carried.
pub proof fn mutated_after_apply_has_no_patch(
    res: ResponseView,
    pod: Map<Seq<char>, Seq<char>>,
    node: Map<Seq<char>, Seq<char>>,
)
    ensures
        mutated(res, apply(pod, diff(pod, node)), node).patch is None,
{
    diff_after_apply_is_empty(pod, node);
}

} // verus!
