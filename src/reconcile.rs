//! Desired-property reconciliation: every desired change is echoed back as
//! reported state, without the twin's version metadata.
use vstd::prelude::*;

use crate::error::TwinError;
use crate::hub::TwinUpdateState;
use crate::json::{json_object, member, member_of, object_from_value, object_value, remove_member, Members};

verus! {

/// The document that a desired-property payload carries: the payload itself
/// for a delta, its `"desired"` member for a whole twin; `None` where that is
/// no JSON object.
pub open spec fn effective_document(state: TwinUpdateState, payload: serde_json::Value) -> Option<Members> {
    match state {
        TwinUpdateState::Partial => json_object(payload),
        TwinUpdateState::Complete => match member_of(payload, "desired"@) {
            Some(d) => json_object(d),
            None => None,
        },
    }
}

/// The members reported back for a desired-property payload: those of its
/// effective document but `"$version"`.
pub open spec fn reconciled(state: TwinUpdateState, payload: serde_json::Value) -> Option<Members> {
    match effective_document(state, payload) {
        Some(m) => Some(m.remove("$version"@)),
        None => None,
    }
}

/// Turns a desired-property payload into the reported document to forward:
/// the effective document without its `"$version"` member. A payload whose
/// effective document is no JSON object is `MalformedTwin`.
pub fn reported_from_desired(state: TwinUpdateState, payload: serde_json::Value) -> (r: Result<
    serde_json::Value,
    TwinError,
>)
    ensures
        r is Ok <==> reconciled(state, payload) is Some,
        r matches Ok(doc) ==> json_object(doc) == reconciled(state, payload),
        r matches Err(e) ==> e == TwinError::MalformedTwin,
{
    let effective = match state {
        TwinUpdateState::Partial => payload,
        TwinUpdateState::Complete => member(&payload, "desired"),
    };
    match object_from_value(effective) {
        Ok(mut map) => {
            let _ = remove_member(&mut map, "$version");
            Ok(object_value(map))
        },
        Err(_) => Err(TwinError::MalformedTwin),
    }
}

/// Whatever the payload, the document forwarded for reporting holds no
/// `"$version"` member.
pub proof fn lemma_version_never_forwarded(state: TwinUpdateState, payload: serde_json::Value)
    ensures
        reconciled(state, payload) matches Some(m) ==> !m.contains_key("$version"@),
{
}

} // verus!
