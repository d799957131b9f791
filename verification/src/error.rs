use vstd::prelude::*;

verus! {

/// A failure reported by the resolve-or-fetch capability.
#[derive(Debug, PartialEq, Eq, Structural)]
pub enum ResolveError {
    /// The fetch budget was already spent and the URI was not known locally.
    BudgetExhausted,
    /// A fetch was attempted but produced no usable actor record.
    NotFound,
}

/// A rejection of one inbound activity. Every variant carries enough context
/// for the caller to log or answer the peer; none is fatal to the process.
#[derive(Debug)]
pub enum CoreError {
    /// The activity's actor field is absent or not a single well-formed URI.
    MissingActor,
    /// The actor identifier has no domain in its authority component.
    MissingDomain,
    /// An identifier of the activity belongs to a different origin than the
    /// actor: a potential spoofing attempt.
    DomainMismatch,
    /// The object field matches no accepted shape: neither a bare URI nor a
    /// single embedded entity with an identifier.
    MalformedReference,
    /// The resolve-or-fetch capability failed; its error is passed on
    /// unchanged, tagged with the URI whose resolution failed.
    Resolve { uri: String, cause: ResolveError },
    /// The activity's kind is not one the dispatcher recognizes: answered as
    /// "not implemented" rather than as a generic failure.
    UnsupportedActivity { kind: String },
}

} // verus!
