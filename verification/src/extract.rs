use vstd::prelude::*;
use crate::activity::Activity;
use crate::error::CoreError;
use crate::uri::Uri;

verus! {

/// Read the single object reference out of a "Like" or "Dislike" activity.
///
/// For backwards compatibility with older senders, the object field may
/// either be a bare URI or embed the full liked object; in the second shape
/// the embedded entity's own identifier is taken. A field with zero or
/// several values, or an embedded entity without an identifier, is a
/// malformed reference.
pub fn get_like_object_id(like_or_dislike: &Activity) -> (r: Result<Uri, CoreError>)
    ensures
        match r {
            Ok(u) => like_or_dislike.object.reference() == Some((u@, u.domain_spec())),
            Err(e) => like_or_dislike.object.reference() is None && (e matches
            CoreError::MalformedReference),
        },
{
    match like_or_dislike.object.single_reference() {
        Some(u) => Ok(u.clone()),
        None => Err(CoreError::MalformedReference),
    }
}

} // verus!
