//! Who may do what: the vehicle lock guards every endpoint that changes something.

use vstd::prelude::*;
use crate::runtimefiles::error::{DbUpdateErrorResponse, ErrorCode, RuntimeUpdateError};
use crate::runtimefiles::response::{Body, Response, FORBIDDEN};
use crate::text::text_eq;

verus! {

/// The endpoints.
#[derive(Clone, Copy, Debug, PartialEq, Eq, Structural)]
pub enum Endpoint {
    CurrentGet,
    NextupdateGet,
    NextupdatePost,
    NextupdateDelete,
    NextupdateIdDelete,
    BackupGet,
    BackupDelete,
    ExecutionsGet,
    ExecutionsPost,
    ExecutionsIdGet,
}

impl Endpoint {
    /// The endpoint changes files or starts an update.
    pub open spec fn changes_something(self) -> bool {
        ||| self == Endpoint::NextupdatePost
        ||| self == Endpoint::NextupdateDelete
        ||| self == Endpoint::NextupdateIdDelete
        ||| self == Endpoint::BackupDelete
        ||| self == Endpoint::ExecutionsPost
    }
}

/// What a handler does next.
#[derive(Debug)]
pub enum HandlerStep {
    /// Ask who owns the vehicle lock, and go on with [`step_after_lock`].
    QueryVehicleLock,
    /// Let the update plugin do what the endpoint is for.
    CallPlugin,
    /// Answer with this error.
    Refuse(RuntimeUpdateError),
}

/// `step` is what the handler of an endpoint does first.
pub open spec fn starts(step: HandlerStep, endpoint: Endpoint) -> bool {
    step == if endpoint.changes_something() {
        HandlerStep::QueryVehicleLock
    } else {
        HandlerStep::CallPlugin
    }
}

/// What the handler of an endpoint does first.
pub fn first_step(endpoint: Endpoint) -> (r: HandlerStep)
    ensures
        starts(r, endpoint),
        endpoint == Endpoint::NextupdatePost || endpoint == Endpoint::NextupdateDelete || endpoint
            == Endpoint::NextupdateIdDelete || endpoint == Endpoint::BackupDelete || endpoint
            == Endpoint::ExecutionsPost ==> r is QueryVehicleLock,
        endpoint == Endpoint::CurrentGet || endpoint == Endpoint::NextupdateGet || endpoint
            == Endpoint::BackupGet || endpoint == Endpoint::ExecutionsGet || endpoint
            == Endpoint::ExecutionsIdGet ==> r is CallPlugin,
{
    match endpoint {
        Endpoint::NextupdatePost
        | Endpoint::NextupdateDelete
        | Endpoint::NextupdateIdDelete
        | Endpoint::BackupDelete
        | Endpoint::ExecutionsPost => HandlerStep::QueryVehicleLock,
        Endpoint::CurrentGet
        | Endpoint::NextupdateGet
        | Endpoint::BackupGet
        | Endpoint::ExecutionsGet
        | Endpoint::ExecutionsIdGet => HandlerStep::CallPlugin,
    }
}

/// The owner of a lock by their subject, if there is one.
pub open spec fn owner_sub(owner: Option<String>) -> Option<Seq<char>> {
    match owner {
        Some(sub) => Some(sub@),
        None => None,
    }
}

/// The error of a request that the vehicle lock keeps out.
pub open spec fn is_lock_error(error: RuntimeUpdateError, owner: Option<Seq<char>>) -> bool {
    error matches RuntimeUpdateError::NoLock(text) && text@ == if owner is None {
        "Vehicle lock is missing"@
    } else {
        "Vehicle lock is owned by another user"@
    }
}

/// Whether the vehicle lock is held by the user with subject `sub`.
pub fn require_vehicle_lock(owner: Option<String>, sub: &str) -> (r: Result<
    (),
    RuntimeUpdateError,
>)
    ensures
        match r {
            Ok(_) => owner_sub(owner) == Some(sub@),
            Err(error) => owner_sub(owner) != Some(sub@) && is_lock_error(
                error,
                owner_sub(owner),
            ),
        },
        r is Ok <==> (owner matches Some(holder) && holder@ == sub@),
        r matches Err(error) ==> (error matches RuntimeUpdateError::NoLock(text) && (owner is None
            ==> text@ == "Vehicle lock is missing"@) && (owner is Some ==> text@
            == "Vehicle lock is owned by another user"@)),
{
    match owner {
        None => Err(RuntimeUpdateError::NoLock("Vehicle lock is missing".to_owned())),
        Some(owner) => if text_eq(owner.as_str(), sub) {
            Ok(())
        } else {
            Err(RuntimeUpdateError::NoLock("Vehicle lock is owned by another user".to_owned()))
        },
    }
}

/// `step` is what a handler may do once the owner of the vehicle lock is known.
pub open spec fn follows_lock(step: HandlerStep, owner: Option<Seq<char>>, sub: Seq<char>) -> bool {
    if owner == Some(sub) {
        step == HandlerStep::CallPlugin
    } else {
        step matches HandlerStep::Refuse(error) && is_lock_error(error, owner)
    }
}

/// What a handler does once the owner of the vehicle lock is known.
pub fn step_after_lock(owner: Option<String>, sub: &str) -> (r: HandlerStep)
    ensures
        follows_lock(r, owner_sub(owner), sub@),
        r is CallPlugin <==> (owner matches Some(holder) && holder@ == sub@),
        r !is CallPlugin ==> (r matches HandlerStep::Refuse(RuntimeUpdateError::NoLock(text)) && (
        owner is None ==> text@ == "Vehicle lock is missing"@) && (owner is Some ==> text@
            == "Vehicle lock is owned by another user"@)),
{
    match require_vehicle_lock(owner, sub) {
        Ok(_) => HandlerStep::CallPlugin,
        Err(error) => HandlerStep::Refuse(error),
    }
}

/// The plugin is called for a request that changes something only if the user who sent
/// it holds the vehicle lock. A request that only reads needs no lock. `first` is the
/// first step of the handler, and `after_lock` the one it takes once it has asked who
/// owns the lock.
pub proof fn lemma_lock_guards_changes(
    endpoint: Endpoint,
    first: HandlerStep,
    after_lock: HandlerStep,
    owner: Option<Seq<char>>,
    sub: Seq<char>,
)
    requires
        starts(first, endpoint),
        follows_lock(after_lock, owner, sub),
    ensures
        first is CallPlugin <==> !endpoint.changes_something(),
        first is QueryVehicleLock <==> endpoint.changes_something(),
        after_lock is CallPlugin <==> owner == Some(sub),
        after_lock is Refuse <==> owner != Some(sub),
        first is CallPlugin || (first is QueryVehicleLock && after_lock is CallPlugin) <==> (
        endpoint.changes_something() ==> owner == Some(sub)),
{
}

/// A refused request is answered with "forbidden" and insufficient access rights, with
/// the text of the error, and without a hint to try again.
pub proof fn lemma_refused_request_is_forbidden<T>(
    step: HandlerStep,
    owner: Option<Seq<char>>,
    sub: Seq<char>,
    refusal: DbUpdateErrorResponse,
    answer: Response<T>,
)
    requires
        follows_lock(step, owner, sub),
        owner != Some(sub),
        step == HandlerStep::Refuse(refusal.error),
        refusal.answered_by(answer),
    ensures
        answer.status == FORBIDDEN,
        answer.retry_after is None,
        answer.body matches Body::Error(body) && body.error_code
            == ErrorCode::InsufficientAccessRights && body.vendor_code is None && body.message
            == refusal.message,
{
}

/// Whether the lock lets a request through depends on the holder alone: for every user
/// there is one holder with whom the plugin is called, and that is the user.
pub proof fn lemma_only_the_holder_passes(
    step: HandlerStep,
    owner: Option<String>,
    sub: Seq<char>,
    other: HandlerStep,
    other_sub: Seq<char>,
)
    requires
        follows_lock(step, owner_sub(owner), sub),
        follows_lock(other, owner_sub(owner), other_sub),
    ensures
        step is CallPlugin <==> (owner matches Some(holder) && holder@ == sub),
        step is CallPlugin && other is CallPlugin ==> sub == other_sub,
        step is CallPlugin && sub != other_sub ==> (other matches HandlerStep::Refuse(
            RuntimeUpdateError::NoLock(text),
        ) && text@ == "Vehicle lock is owned by another user"@),
        owner is None ==> (step matches HandlerStep::Refuse(RuntimeUpdateError::NoLock(text))
            && text@ == "Vehicle lock is missing"@),
{
}

} // verus!
