use vstd::prelude::*;
use crate::activity::Activity;
use crate::error::CoreError;
use crate::uri::Uri;

verus! {

/// The verdict of the domain matcher on an activity, an actor identifier and
/// the object-matching flag, with the checks in their fixed order: the actor
/// identifier must have a domain, the activity's own identifier must belong
/// to it, the object field must carry a single reference, and, when the flag
/// asks for it, that reference must belong to the same domain.
pub open spec fn domain_verdict(
    activity: Activity,
    actor_id: Uri,
    object_domain_must_match: bool,
) -> Result<(), CoreError> {
    if actor_id.domain_spec() is None {
        Err(CoreError::MissingDomain)
    } else if activity.id.domain_spec() != actor_id.domain_spec() {
        Err(CoreError::DomainMismatch)
    } else {
        match activity.object.reference() {
            None => Err(CoreError::MalformedReference),
            Some(object_ref) => {
                if object_domain_must_match && object_ref.1 != actor_id.domain_spec() {
                    Err(CoreError::DomainMismatch)
                } else {
                    Ok(())
                }
            },
        }
    }
}

/// Ensure that the identifier of an inbound activity comes from the same
/// domain as the actor, and optionally that the identifier of the inner
/// object does too.
///
/// The check starts from the actor identifier because the caller has already
/// confirmed it as authentic through the transport-level signature; anchoring
/// the activity's identifier to that same origin is what stops a spoofed
/// identifier from claiming to belong to another server.
pub fn verify_activity_domains_valid(
    activity: &Activity,
    actor_id: &Uri,
    object_domain_must_match: bool,
) -> (r: Result<(), CoreError>)
    ensures
        r == domain_verdict(*activity, *actor_id, object_domain_must_match),
{
    let expected: &String = match actor_id.domain() {
        Some(d) => d,
        None => {
            return Err(CoreError::MissingDomain);
        },
    };

    let id_matches: bool = match activity.id.domain() {
        Some(d) => *d == *expected,
        None => false,
    };
    if !id_matches {
        return Err(CoreError::DomainMismatch);
    }

    let object_id: &Uri = match activity.object.single_reference() {
        Some(u) => u,
        None => {
            return Err(CoreError::MalformedReference);
        },
    };

    if object_domain_must_match {
        let object_matches: bool = match object_id.domain() {
            Some(d) => *d == *expected,
            None => false,
        };
        if !object_matches {
            return Err(CoreError::DomainMismatch);
        }
    }

    Ok(())
}

/// Whenever the activity's identifier and the actor identifier share one
/// domain and the object field carries a single reference, the matcher with
/// object matching switched off accepts, whatever domain that reference
/// belongs to.
pub proof fn lemma_same_domain_accepted(activity: Activity, actor_id: Uri)
    requires
        actor_id.domain_spec() is Some,
        activity.id.domain_spec() == actor_id.domain_spec(),
        activity.object.reference() is Some,
    ensures
        domain_verdict(activity, actor_id, false) == Ok::<(), CoreError>(()),
{
}

/// Whenever the activity's identifier does not belong to the domain of the
/// actor identifier, the matcher rejects with a domain mismatch, whatever
/// the object field holds and whatever the flag says.
pub proof fn lemma_foreign_id_rejected(
    activity: Activity,
    actor_id: Uri,
    object_domain_must_match: bool,
)
    requires
        actor_id.domain_spec() is Some,
        activity.id.domain_spec() != actor_id.domain_spec(),
    ensures
        domain_verdict(activity, actor_id, object_domain_must_match) == Err::<(), CoreError>(
            CoreError::DomainMismatch,
        ),
{
}

} // verus!
