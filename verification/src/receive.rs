use vstd::prelude::*;
use crate::FetchBudget;
use crate::activity::Activity;
use crate::domain::{domain_verdict, verify_activity_domains_valid};
use crate::error::{CoreError, ResolveError};
use crate::extract::get_like_object_id;
use crate::resolve::{get_actor_as_user, LocalActorRecord, ResolveOrFetch};
use crate::uri::Uri;

verus! {

/// Build the rejection for an activity whose kind the dispatcher does not
/// recognize: a structured value carrying the offending kind, which the
/// caller answers as "not implemented" rather than as a generic failure.
pub fn reject_unsupported(activity: &Activity) -> (r: CoreError)
    ensures
        r matches CoreError::UnsupportedActivity { kind } && kind@ == activity.kind@,
{
    CoreError::UnsupportedActivity { kind: activity.kind.clone() }
}

/// Divert an unrecognized activity out of the inbox: this sink always fails,
/// and, taking no budget, leaves the fetch budget untouched.
pub fn receive_unhandled_activity(activity: &Activity) -> (r: Result<(), CoreError>)
    ensures
        r matches Err(e) && e matches CoreError::UnsupportedActivity { kind } && kind@
            == activity.kind@,
{
    Err(reject_unsupported(activity))
}

/// Run one inbound, transport-verified activity through the whole gate:
/// resolve its actor to a trusted local record, anchor the activity's
/// identifiers to that actor's domain, and extract the single object
/// reference.
///
/// The domain checks behave exactly as the domain matcher run against the
/// activity's own actor URI, since the resolved record carries that same
/// URI; a failure of the capability is passed on tagged with the actor URI,
/// and an exhausted budget fails fast without a fetch.
pub fn verify_and_extract<R: ResolveOrFetch>(
    activity: &Activity,
    object_domain_must_match: bool,
    resolver: &mut R,
    budget: &mut FetchBudget,
) -> (r: Result<(LocalActorRecord, Option<Uri>), CoreError>)
    ensures
        final(budget).remaining <= old(budget).remaining,
        old(budget).remaining - final(budget).remaining <= 1,
        old(resolver).known().subset_of(final(resolver).known()),
        activity.actor is None ==> (r matches Err(e) && e matches CoreError::MissingActor)
            && final(budget).remaining == old(budget).remaining,
        activity.actor matches Some(a) ==> {
            &&& r matches Ok(p) ==> {
                &&& domain_verdict(*activity, a, object_domain_must_match) == Ok::<(), CoreError>(())
                &&& p.0.actor_uri@ == a@
                &&& p.1 matches Some(u) && activity.object.reference() == Some((u@, u.domain_spec()))
                &&& final(resolver).known().contains(a@)
            }
            &&& r matches Err(e) ==> {
                ||| e matches CoreError::Resolve { uri, cause } && uri@ == a@ && !old(
                    resolver,
                ).known().contains(a@)
                ||| Err::<(), CoreError>(e) == domain_verdict(*activity, a, object_domain_must_match)
            }
            &&& (!old(resolver).known().contains(a@) && old(budget).remaining == 0) ==> (
            r matches Err(e) && e matches CoreError::Resolve { uri, cause } && uri@ == a@ && cause
                == ResolveError::BudgetExhausted) && final(budget).remaining == old(
                budget,
            ).remaining
            &&& old(resolver).known().contains(a@) ==> {
                &&& final(budget).remaining == old(budget).remaining
                &&& domain_verdict(*activity, a, object_domain_must_match) matches Err(e2)
                    ==> r matches Err(e) && e == e2
                &&& domain_verdict(*activity, a, object_domain_must_match) is Ok ==> r is Ok
            }
        },
{
    let rec = match get_actor_as_user(activity, resolver, budget) {
        Ok(rec) => rec,
        Err(e) => {
            return Err(e);
        },
    };

    if let Err(e) = verify_activity_domains_valid(activity, &rec.actor_uri, object_domain_must_match) {
        return Err(e);
    }

    let object_id = match get_like_object_id(activity) {
        Ok(u) => u,
        Err(e) => {
            return Err(e);
        },
    };

    Ok((rec, Some(object_id)))
}

} // verus!
