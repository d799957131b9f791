use vstd::prelude::*;
use crate::FetchBudget;
use crate::activity::Activity;
use crate::error::{CoreError, ResolveError};
use crate::uri::Uri;

verus! {

/// The trusted local representation of an actor, as the persistence layer
/// hands it back after resolution.
pub struct LocalActorRecord {
    pub actor_uri: Uri,
}

impl Clone for LocalActorRecord {
    fn clone(&self) -> (r: Self)
        ensures
            r.actor_uri@ == self.actor_uri@,
            r.actor_uri.domain_spec() == self.actor_uri.domain_spec(),
    {
        LocalActorRecord { actor_uri: self.actor_uri.clone() }
    }
}

/// The resolve-or-fetch capability: turn an actor URI into a trusted local
/// record, fetching over the network when the actor is not yet known.
///
/// A URI already known locally is answered from the local store without
/// spending budget and without changing the set of known actors; a URI not
/// yet known costs one unit of budget per attempted fetch, and must be
/// refused outright, with nothing fetched, once the budget is spent.
pub trait ResolveOrFetch: Sized {
    /// The texts of the actor URIs resolvable locally, without a fetch.
    spec fn known(&self) -> Set<Seq<char>>;

    fn resolve(&mut self, uri: &Uri, budget: &mut FetchBudget) -> (r: Result<
        LocalActorRecord,
        ResolveError,
    >)
        ensures
            final(budget).remaining <= old(budget).remaining,
            old(budget).remaining - final(budget).remaining <= 1,
            old(self).known().subset_of(final(self).known()),
            old(self).known().contains(uri@) ==> r is Ok && final(budget).remaining == old(budget).remaining && final(self).known() == old(self).known(),
            (!old(self).known().contains(uri@) && old(budget).remaining == 0) ==> r == Err::<LocalActorRecord, ResolveError>(ResolveError::BudgetExhausted) && final(budget).remaining == old(budget).remaining
                && final(self).known() == old(self).known(),
            (!old(self).known().contains(uri@) && old(budget).remaining > 0) ==> final(budget).remaining == old(budget).remaining - 1,
            r matches Ok(rec) ==> rec.actor_uri@ == uri@ && final(self).known().contains(uri@),
    ;
}

/// An in-memory resolve-or-fetch capability: a local store of already
/// resolved actors, and a table standing in for what the rest of the
/// federation would answer to a fetch.
pub struct MemoryResolver {
    local: Vec<LocalActorRecord>,
    remote: Vec<LocalActorRecord>,
}

impl MemoryResolver {
    /// A resolver that knows nothing and can fetch nothing.
    pub fn new() -> (r: MemoryResolver)
        ensures
            r.known() == Set::<Seq<char>>::empty(),
    {
        let r = MemoryResolver { local: Vec::new(), remote: Vec::new() };
        proof {
            assert(r.known() =~= Set::<Seq<char>>::empty());
        }
        r
    }

    /// Store an actor record locally: its URI becomes known at no cost.
    pub fn add_local(&mut self, rec: LocalActorRecord)
        ensures
            final(self).known() == old(self).known().insert(rec.actor_uri@),
    {
        let ghost prior = self.local@;
        self.local.push(rec);
        proof {
            assert forall|t: Seq<char>| final(self).known().contains(t) implies old(self).known().insert(rec.actor_uri@).contains(t) by {
                let i = choose|i: int|
                    0 <= i < self.local@.len() && self.local@[i].actor_uri@ == t;
                if i < prior.len() {
                    assert(prior[i].actor_uri@ == t);
                }
            }
            assert forall|t: Seq<char>| old(self).known().insert(rec.actor_uri@).contains(t) implies final(self).known().contains(t) by {
                if old(self).known().contains(t) {
                    let i = choose|i: int| 0 <= i < prior.len() && prior[i].actor_uri@ == t;
                    assert(self.local@[i].actor_uri@ == t);
                } else {
                    assert(self.local@[prior.len() as int].actor_uri@ == t);
                }
            }
            assert(final(self).known() =~= old(self).known().insert(rec.actor_uri@));
        }
    }

    /// Put an actor record into the remote table: a later fetch of its URI
    /// can then succeed, but nothing becomes known yet.
    pub fn add_remote(&mut self, rec: LocalActorRecord)
        ensures
            final(self).known() == old(self).known(),
    {
        self.remote.push(rec);
    }
}

impl ResolveOrFetch for MemoryResolver {
    closed spec fn known(&self) -> Set<Seq<char>> {
        Set::new(
            |t: Seq<char>|
                exists|i: int| 0 <= i < self.local@.len() && self.local@[i].actor_uri@ == t,
        )
    }

    fn resolve(&mut self, uri: &Uri, budget: &mut FetchBudget) -> (r: Result<
        LocalActorRecord,
        ResolveError,
    >) {
        let local_len = self.local.len();
        let mut i: usize = 0;
        while i < local_len
            invariant
                *self == *old(self),
                *budget == *old(budget),
                i <= local_len,
                local_len == self.local@.len(),
                forall|j: int| 0 <= j < i ==> self.local@[j].actor_uri@ != uri@,
            decreases local_len - i,
        {
            if self.local[i].actor_uri.same_text(uri) {
                return Ok(self.local[i].clone());
            }
            i += 1;
        }
        if budget.remaining == 0 {
            return Err(ResolveError::BudgetExhausted);
        }
        budget.remaining = budget.remaining - 1;

        let remote_len = self.remote.len();
        let mut k: usize = 0;
        while k < remote_len
            invariant
                *self == *old(self),
                budget.remaining == old(budget).remaining - 1,
                old(budget).remaining > 0,
                !old(self).known().contains(uri@),
                k <= remote_len,
                remote_len == self.remote@.len(),
            decreases remote_len - k,
        {
            if self.remote[k].actor_uri.same_text(uri) {
                let fetched = self.remote[k].clone();
                let kept = fetched.clone();
                let ghost prior = self.local@;
                self.local.push(kept);
                proof {
                    assert(self.local@[prior.len() as int].actor_uri@ == uri@);
                    assert(self.known().contains(uri@));
                    assert forall|t: Seq<char>| old(self).known().contains(t) implies self
                        .known().contains(t) by {
                        let j = choose|j: int| 0 <= j < prior.len() && prior[j].actor_uri@ == t;
                        assert(self.local@[j].actor_uri@ == t);
                    }
                }
                return Ok(fetched);
            }
            k += 1;
        }
        Err(ResolveError::NotFound)
    }
}

/// Read the actor field of an activity and resolve it, through the
/// resolve-or-fetch capability, to the corresponding trusted local record.
///
/// No retry happens at this layer: whatever the capability answers is passed
/// on, a failure tagged with the URI whose resolution failed. The capability
/// is never invoked at all when the actor field is missing, and a URI not
/// yet known fails fast, with no fetch spent, once the budget is exhausted.
pub fn get_actor_as_user<R: ResolveOrFetch>(
    activity: &Activity,
    resolver: &mut R,
    budget: &mut FetchBudget,
) -> (r: Result<LocalActorRecord, CoreError>)
    ensures
        final(budget).remaining <= old(budget).remaining,
        old(budget).remaining - final(budget).remaining <= 1,
        old(resolver).known().subset_of(final(resolver).known()),
        activity.actor is None ==> (r matches Err(e) && e matches CoreError::MissingActor) && final(budget).remaining == old(budget).remaining && final(resolver).known() == old(resolver).known(),
        activity.actor matches Some(a) ==> {
            &&& old(resolver).known().contains(a@) ==> r is Ok && final(budget).remaining == old(budget).remaining && final(resolver).known() == old(resolver).known()
            &&& (!old(resolver).known().contains(a@) && old(budget).remaining == 0) ==> (
            r matches Err(e) && e matches CoreError::Resolve { uri, cause } && uri@ == a@ && cause
                == ResolveError::BudgetExhausted) && final(budget).remaining == old(budget).remaining && final(resolver).known() == old(resolver).known()
            &&& r matches Ok(rec) ==> rec.actor_uri@ == a@ && rec.actor_uri.domain_spec()
                == a.domain_spec() && final(resolver).known().contains(a@)
            &&& r matches Err(e) ==> e matches CoreError::Resolve { uri, cause } && uri@ == a@
                && !old(resolver).known().contains(a@)
        },
{
    let actor: &Uri = match &activity.actor {
        Some(a) => a,
        None => {
            return Err(CoreError::MissingActor);
        },
    };
    let resolved = resolver.resolve(actor, budget);
    match resolved {
        Ok(rec) => {
            proof {
                use_type_invariant(&rec.actor_uri);
                use_type_invariant(actor);
            }
            Ok(rec)
        },
        Err(cause) => Err(CoreError::Resolve { uri: actor.text().clone(), cause }),
    }
}

} // verus!
