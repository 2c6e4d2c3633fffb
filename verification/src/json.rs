use vstd::prelude::*;
use vstd::string::*;
use crate::diff::{ops_view, LabelOp, OpKind, PatchOp};

verus! {

/// The path under which an object's labels live; a label's key follows it.
pub const LABELS_PATH: &'static str = "/metadata/labels/";

/// One operation of a JSON Patch document, in contracts.
pub enum JsonOp {
    /// `add` of a JSON string at a path.
    Add { path: Seq<char>, value: Seq<char> },
    /// `replace` by a JSON string at a path.
    Replace { path: Seq<char>, value: Seq<char> },
    /// Any other operation, and an `add` or `replace` of a value that is no string.
    Other,
}

/// No operation is left unmodelled: each is an add or a replace of a string.
pub open spec fn labels_only(ops: Seq<JsonOp>) -> bool {
    forall|i: int| 0 <= i < ops.len() ==> !(#[trigger] ops[i] is Other)
}

/// `json_patch::Patch`, a JSON Patch document. Its operations are read through
/// [`patch_ops`].
#[verifier::external_type_specification]
#[verifier::external_body]
pub struct ExPatch(json_patch::Patch);

/// The operations that a JSON Patch document holds, first to last: one
/// [`JsonOp`] for each element of the document's vector.
pub uninterp spec fn patch_ops(patch: json_patch::Patch) -> Seq<JsonOp>;

/// The bytes that `serde_json::to_vec` writes for a JSON Patch document with
/// these operations, none of them [`JsonOp::Other`].
pub uninterp spec fn patch_json(ops: Seq<JsonOp>) -> Seq<u8>;

/// Builds `json_patch::Patch` around an empty vector: a document without operations.
#[verifier::external_body]
pub(crate) fn empty_patch() -> (patch: json_patch::Patch)
    ensures
        patch_ops(patch) == Seq::<JsonOp>::empty(),
{
    json_patch::Patch(Vec::new())
}

/// Pushes `json_patch::PatchOperation::Add` with the given path and the JSON string
/// `value` onto the document's vector: the new operation comes last, the others stay.
#[verifier::external_body]
pub(crate) fn push_add(patch: &mut json_patch::Patch, path: String, value: String)
    ensures
        patch_ops(*final(patch)) == patch_ops(*old(patch)).push(
            (JsonOp::Add { path: path@, value: value@ }),
        ),
{
    patch.0.push(json_patch::PatchOperation::Add(json_patch::AddOperation {
        path,
        value: serde_json::Value::String(value),
    }));
}

/// Pushes `json_patch::PatchOperation::Replace` with the given path and the JSON
/// string `value` onto the document's vector: the new operation comes last, the
/// others stay.
#[verifier::external_body]
pub(crate) fn push_replace(patch: &mut json_patch::Patch, path: String, value: String)
    ensures
        patch_ops(*final(patch)) == patch_ops(*old(patch)).push(
            (JsonOp::Replace { path: path@, value: value@ }),
        ),
{
    patch.0.push(json_patch::PatchOperation::Replace(json_patch::ReplaceOperation {
        path,
        value: serde_json::Value::String(value),
    }));
}

/// Calls `serde_json::to_vec` on a document of adds and replaces of strings.
/// The bytes that it writes depend on the document's operations alone, and it
/// succeeds: its documentation names two ways to fail, an impl of `Serialize`
/// that chooses to and a map whose keys are no strings, and such a document
/// holds neither, nor can the write into a vector fail.
#[verifier::external_body]
pub(crate) fn encode_patch(patch: &json_patch::Patch) -> (bytes: Option<Vec<u8>>)
    requires
        labels_only(patch_ops(*patch)),
    ensures
        bytes is Some,
        bytes matches Some(b) ==> b@ == patch_json(patch_ops(*patch)),
{
    serde_json::to_vec(patch).ok()
}

/// The JSON Patch operation that carries out one label operation: an add or a
/// replace of the value at the label's path.
pub open spec fn json_op(op: LabelOp) -> JsonOp {
    match op.kind {
        OpKind::Add => JsonOp::Add { path: LABELS_PATH@ + op.label, value: op.value },
        OpKind::Replace => JsonOp::Replace { path: LABELS_PATH@ + op.label, value: op.value },
    }
}

/// The JSON Patch operations of a label patch, in the patch's order.
pub open spec fn json_ops(ops: Seq<LabelOp>) -> Seq<JsonOp> {
    Seq::new(ops.len(), |i: int| json_op(ops[i]))
}

/// The path of a label within an object: the labels' path, then the key. The
/// key is written as it is; the managed labels hold nothing that a path would
/// have to escape.
pub fn label_path(label: &str) -> (path: String)
    ensures
        path@ == LABELS_PATH@ + label@,
{
    String::from_str(LABELS_PATH).concat(label)
}

/// Writes a label patch as a JSON Patch document with one operation for each
/// label operation, in the same order.
pub fn to_json_patch(ops: &Vec<PatchOp>) -> (patch: json_patch::Patch)
    ensures
        patch_ops(patch) == json_ops(ops_view(ops@)),
{
    let mut patch = empty_patch();
    let mut i: usize = 0;
    while i < ops.len()
        invariant
            i <= ops.len(),
            patch_ops(patch) == json_ops(ops_view(ops@).take(i as int)),
        decreases ops.len() - i,
    {
        let op = &ops[i];
        let path = label_path(op.label.as_str());
        match op.kind {
            OpKind::Add => push_add(&mut patch, path, op.value.clone()),
            OpKind::Replace => push_replace(&mut patch, path, op.value.clone()),
        }
        i += 1;
    }
    patch
}

} // verus!
