use crate::auth::LocalUser;
use crate::error::Error;
use vstd::prelude::*;

verus! {

/// Where the resolution of a subject to its local record stands.
#[derive(Debug, Clone, Copy, PartialEq, Eq, Structural)]
pub enum ResolveStep {
    /// Waiting for the store's answer to a lookup by subject.
    LookingUp,
    /// Waiting for the store's answer to creating a record.
    Creating,
    /// Waiting for the answer to the lookup that follows a create conflict.
    Rereading,
}

/// What the user store answered.
#[derive(Debug)]
pub enum StoreReply {
    /// A record exists for the subject.
    Found(LocalUser),
    /// No record exists for the subject.
    Missing,
    /// The record was created.
    Created(LocalUser),
    /// Another request created the record first.
    Conflict,
    /// The store failed.
    Failed,
}

/// What to do next.
#[derive(Debug)]
pub enum ResolveAction {
    /// Look the subject up.
    Lookup,
    /// Create a minimal record for the subject.
    Create,
    /// Resolution is over: this is the subject's record.
    Resolved(LocalUser),
    /// Resolution failed.
    Fail(Error),
}

/// The first thing to do when resolving a subject: look it up.
pub fn start_resolution() -> (r: (ResolveStep, ResolveAction))
    ensures
        r.0 == ResolveStep::LookingUp,
        r.1 is Lookup,
{
    (ResolveStep::LookingUp, ResolveAction::Lookup)
}

/// The next step of resolving a subject to its local record, given the
/// store's reply to the last action. A found or created record ends the
/// resolution; a missing record is created; a create conflict means another
/// request created it, so it is read again once; any store failure, or a
/// reply that does not answer the question asked, fails with `Store`.
pub fn next_resolution(step: ResolveStep, reply: StoreReply) -> (r: (ResolveStep, ResolveAction))
    ensures
        match (step, reply) {
            (ResolveStep::LookingUp, StoreReply::Found(u)) => r.1 == ResolveAction::Resolved(u),
            (ResolveStep::Rereading, StoreReply::Found(u)) => r.1 == ResolveAction::Resolved(u),
            (ResolveStep::Creating, StoreReply::Created(u)) => r.1 == ResolveAction::Resolved(u),
            (ResolveStep::LookingUp, StoreReply::Missing) => r.0 == ResolveStep::Creating
                && r.1 is Create,
            (ResolveStep::Creating, StoreReply::Conflict) => r.0 == ResolveStep::Rereading
                && r.1 is Lookup,
            _ => r.1 matches ResolveAction::Fail(e) && e is Store,
        },
{
    match (step, reply) {
        (ResolveStep::LookingUp, StoreReply::Found(u)) => (step, ResolveAction::Resolved(u)),
        (ResolveStep::Rereading, StoreReply::Found(u)) => (step, ResolveAction::Resolved(u)),
        (ResolveStep::Creating, StoreReply::Created(u)) => (step, ResolveAction::Resolved(u)),
        (ResolveStep::LookingUp, StoreReply::Missing) => (
            ResolveStep::Creating,
            ResolveAction::Create,
        ),
        (ResolveStep::Creating, StoreReply::Conflict) => (
            ResolveStep::Rereading,
            ResolveAction::Lookup,
        ),
        _ => (step, ResolveAction::Fail(Error::Store)),
    }
}

} // verus!
