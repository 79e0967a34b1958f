//! Updates of a named server signal, as JSON patches.
//!
//! Besides revision frames, a server can keep a client's copy of any JSON
//! document current by sending what changed as a JSON patch. An update
//! names the signal it is for and carries the patch.

use vstd::prelude::*;

verus! {

/// A JSON patch as the patch library holds it. Nothing of its inside is
/// visible to the proofs.
#[verifier::external_type_specification]
#[verifier::external_body]
pub struct ExJsonPatch(json_patch::Patch);

/// One operation of a JSON patch, declared because a patch can be read as a
/// slice of its operations.
#[verifier::external_type_specification]
#[verifier::external_body]
pub struct ExJsonPatchOperation(json_patch::PatchOperation);

/// `json_patch::diff`: a patch that leads from `left` to `right`. Nothing is
/// claimed of the result.
#[verifier::external_body]
fn json_diff(left: &serde_json::Value, right: &serde_json::Value) -> (patch: json_patch::Patch) {
    json_patch::diff(left, right)
}

/// The patch library's account of a patch that does not fit a document.
#[verifier::external_type_specification]
#[verifier::external_body]
pub struct ExJsonPatchError(json_patch::PatchError);

/// `serde_json::Value::clone`: a copy of the document, equal to it.
#[verifier::external_body]
fn json_clone(value: &serde_json::Value) -> (copy: serde_json::Value)
    ensures
        copy == *value,
{
    value.clone()
}

/// `json_patch::patch_unsafe`: applies the operations of `patch` to `doc`,
/// one after the other, and stops at the first that does not fit. What it
/// has done to the document by then stays done. Nothing is claimed of the
/// result or of the document.
#[verifier::external_body]
fn json_patch_apply(doc: &mut serde_json::Value, patch: &json_patch::Patch) -> (r: Result<
    (),
    json_patch::PatchError,
>) {
    json_patch::patch_unsafe(doc, patch)
}

/// A patch did not fit the document it was applied to.
#[derive(Clone, Copy, Debug, PartialEq, Eq, Structural)]
pub struct PatchFailed;

/// An update of the signal called `name`.
pub struct ServerSignalUpdate {
    name: String,
    patch: json_patch::Patch,
}

impl ServerSignalUpdate {
    /// The name of the signal the update is for.
    pub closed spec fn signal_name(&self) -> Seq<char> {
        self.name@
    }

    /// The patch the update carries.
    pub closed spec fn carried_patch(&self) -> json_patch::Patch {
        self.patch
    }

    /// The update that leads the signal called `name` from the document
    /// `old` to the document `new`. The patch is the patch library's.
    pub fn new_from_json(name: &str, old: &serde_json::Value, new: &serde_json::Value) -> (u: Self)
        ensures
            u.signal_name() == name@,
    {
        let patch = json_diff(old, new);
        ServerSignalUpdate { name: name.to_owned(), patch }
    }

    /// The update for the signal called `name` that carries `patch`, as it
    /// comes off the wire.
    pub fn from_parts(name: String, patch: json_patch::Patch) -> (u: Self)
        ensures
            u.signal_name() == name@,
            u.carried_patch() == patch,
    {
        ServerSignalUpdate { name, patch }
    }

    /// The name and the patch, for putting the update on the wire.
    pub fn into_parts(self) -> (parts: (String, json_patch::Patch))
        ensures
            parts.0@ == self.signal_name(),
            parts.1 == self.carried_patch(),
    {
        (self.name, self.patch)
    }

    /// The name of the signal the update is for.
    pub fn name(&self) -> (s: &str)
        ensures
            s@ == self.signal_name(),
    {
        self.name.as_str()
    }

    /// The patch the update carries.
    pub fn patch(&self) -> (p: &json_patch::Patch)
        ensures
            *p == self.carried_patch(),
    {
        &self.patch
    }

    /// Applies the update to the document `doc`. The patch is tried on a
    /// copy; only a patch that fits all the way replaces the document. So
    /// where the patch does not fit, the document is as it was, and the
    /// failure is reported.
    pub fn apply_to(&self, doc: &mut serde_json::Value) -> (r: Result<(), PatchFailed>)
        ensures
            r is Err ==> *final(doc) == *old(doc),
    {
        let mut copy = json_clone(doc);
        match json_patch_apply(&mut copy, &self.patch) {
            Ok(()) => {
                *doc = copy;
                Ok(())
            },
            Err(_) => Err(PatchFailed),
        }
    }
}

} // verus!
