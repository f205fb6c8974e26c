//! The subscription status state machine: which status changes are allowed,
//! and how a change is validated and applied.
use vstd::prelude::*;

use crate::error::Error;
use crate::types::SubscriptionStatus;

verus! {

/// The transition matrix: staying in the same status is always allowed;
/// otherwise exactly the listed pairs are.
pub open spec fn transition_allowed(from: SubscriptionStatus, to: SubscriptionStatus) -> bool {
    ||| from == to
    ||| (from == SubscriptionStatus::Active && (to == SubscriptionStatus::Paused || to == SubscriptionStatus::Cancelled || to == SubscriptionStatus::InsufficientBalance
        || to == SubscriptionStatus::GracePeriod || to == SubscriptionStatus::Expired))
    ||| (from == SubscriptionStatus::Paused && (to == SubscriptionStatus::Active || to == SubscriptionStatus::Cancelled || to == SubscriptionStatus::Expired))
    ||| (from == SubscriptionStatus::InsufficientBalance && (to == SubscriptionStatus::Active || to == SubscriptionStatus::Cancelled || to == SubscriptionStatus::Expired))
    ||| (from == SubscriptionStatus::GracePeriod && (to == SubscriptionStatus::Active || to == SubscriptionStatus::Cancelled || to == SubscriptionStatus::InsufficientBalance
        || to == SubscriptionStatus::Expired))
    ||| (from == SubscriptionStatus::Cancelled && to == SubscriptionStatus::Archived)
    ||| (from == SubscriptionStatus::Expired && to == SubscriptionStatus::Archived)
}

/// The targets reachable in one step from `from`, other than `from` itself,
/// in the order in which they are listed.
pub open spec fn allowed_targets(from: SubscriptionStatus) -> Seq<SubscriptionStatus> {
    match from {
        SubscriptionStatus::Active => seq![SubscriptionStatus::Paused, SubscriptionStatus::Cancelled, SubscriptionStatus::InsufficientBalance, SubscriptionStatus::GracePeriod, SubscriptionStatus::Expired],
        SubscriptionStatus::Paused => seq![SubscriptionStatus::Active, SubscriptionStatus::Cancelled, SubscriptionStatus::Expired],
        SubscriptionStatus::Cancelled => seq![SubscriptionStatus::Archived],
        SubscriptionStatus::InsufficientBalance => seq![SubscriptionStatus::Active, SubscriptionStatus::Cancelled, SubscriptionStatus::Expired],
        SubscriptionStatus::GracePeriod => seq![SubscriptionStatus::Active, SubscriptionStatus::Cancelled, SubscriptionStatus::InsufficientBalance, SubscriptionStatus::Expired],
        SubscriptionStatus::Expired => seq![SubscriptionStatus::Archived],
        SubscriptionStatus::Archived => seq![],
    }
}

/// Returns `true` if transitioning from `from` to `to` is permitted.
pub fn can_transition(from: &SubscriptionStatus, to: &SubscriptionStatus) -> (b: bool)
    ensures
        b == transition_allowed(*from, *to),
{
    if *from == *to {
        return true;
    }
    match (*from, *to) {
        (SubscriptionStatus::Active, SubscriptionStatus::Paused) | (SubscriptionStatus::Active, SubscriptionStatus::Cancelled) | (SubscriptionStatus::Active, SubscriptionStatus::InsufficientBalance) | (
            SubscriptionStatus::Active,
            SubscriptionStatus::GracePeriod,
        ) | (SubscriptionStatus::Active, SubscriptionStatus::Expired) | (SubscriptionStatus::Paused, SubscriptionStatus::Active) | (SubscriptionStatus::Paused, SubscriptionStatus::Cancelled) | (SubscriptionStatus::Paused, SubscriptionStatus::Expired) | (
            SubscriptionStatus::InsufficientBalance,
            SubscriptionStatus::Active,
        ) | (SubscriptionStatus::InsufficientBalance, SubscriptionStatus::Cancelled) | (SubscriptionStatus::InsufficientBalance, SubscriptionStatus::Expired) | (
            SubscriptionStatus::GracePeriod,
            SubscriptionStatus::Active,
        ) | (SubscriptionStatus::GracePeriod, SubscriptionStatus::Cancelled) | (SubscriptionStatus::GracePeriod, SubscriptionStatus::InsufficientBalance) | (
            SubscriptionStatus::GracePeriod,
            SubscriptionStatus::Expired,
        ) | (SubscriptionStatus::Cancelled, SubscriptionStatus::Archived) | (SubscriptionStatus::Expired, SubscriptionStatus::Archived) => true,
        _ => false,
    }
}

/// Validates a transition: `Err(InvalidStatusTransition)` exactly when it is
/// not in the matrix.
pub fn validate_status_transition(from: &SubscriptionStatus, to: &SubscriptionStatus) -> (r: Result<
    (),
    Error,
>)
    ensures
        r == (if transition_allowed(*from, *to) {
            Ok(())
        } else {
            Err(Error::InvalidStatusTransition)
        }),
{
    if can_transition(from, to) {
        Ok(())
    } else {
        Err(Error::InvalidStatusTransition)
    }
}

/// Validates and applies a status transition: on success `current` becomes
/// `next`; on error it is left unchanged.
pub fn transition_to(current: &mut SubscriptionStatus, next: SubscriptionStatus) -> (r: Result<
    (),
    Error,
>)
    ensures
        r == (if transition_allowed(*old(current), next) {
            Ok(())
        } else {
            Err(Error::InvalidStatusTransition)
        }),
        *final(current) == (if r is Ok {
            next
        } else {
            *old(current)
        }),
{
    validate_status_transition(current, &next)?;
    *current = next;
    Ok(())
}

/// The valid target statuses from `from`, excluding `from` itself.
pub fn get_allowed_transitions(from: &SubscriptionStatus) -> (out: Vec<SubscriptionStatus>)
    ensures
        out@ == allowed_targets(*from),
{
    let targets: Vec<SubscriptionStatus> = match *from {
        SubscriptionStatus::Active => vec![SubscriptionStatus::Paused, SubscriptionStatus::Cancelled, SubscriptionStatus::InsufficientBalance, SubscriptionStatus::GracePeriod, SubscriptionStatus::Expired],
        SubscriptionStatus::Paused => vec![SubscriptionStatus::Active, SubscriptionStatus::Cancelled, SubscriptionStatus::Expired],
        SubscriptionStatus::Cancelled => vec![SubscriptionStatus::Archived],
        SubscriptionStatus::InsufficientBalance => vec![SubscriptionStatus::Active, SubscriptionStatus::Cancelled, SubscriptionStatus::Expired],
        SubscriptionStatus::GracePeriod => vec![SubscriptionStatus::Active, SubscriptionStatus::Cancelled, SubscriptionStatus::InsufficientBalance, SubscriptionStatus::Expired],
        SubscriptionStatus::Expired => vec![SubscriptionStatus::Archived],
        SubscriptionStatus::Archived => vec![],
    };
    let mut out: Vec<SubscriptionStatus> = Vec::new();
    let n = targets.len();
    for i in 0..n
        invariant
            n == targets@.len(),
            targets@ == allowed_targets(*from),
            out@ == targets@.take(i as int),
    {
        out.push(targets[i]);
        assert(targets@.take(i + 1) == targets@.take(i as int).push(targets@[i as int]));
    }
    assert(targets@.take(n as int) == targets@);
    out
}

/// Every status may stay where it is.
pub proof fn lemma_same_status_always_allowed(s: SubscriptionStatus)
    ensures
        transition_allowed(s, s),
{
}

/// The list of allowed transitions enumerates the matrix exactly: a status
/// other than `from` is listed iff the matrix allows the change, `from` itself
/// is never listed, and nothing is listed twice.
pub proof fn lemma_allowed_transitions_enumerate_matrix(from: SubscriptionStatus)
    ensures
        forall|to: SubscriptionStatus|
            #![trigger allowed_targets(from).contains(to)]
            allowed_targets(from).contains(to) <==> (to != from && transition_allowed(from, to)),
        allowed_targets(from).no_duplicates(),
{
    let t = allowed_targets(from);
    assert forall|to: SubscriptionStatus|
        #![trigger allowed_targets(from).contains(to)]
        allowed_targets(from).contains(to) <==> (to != from && transition_allowed(from, to)) by {
        if to != from && transition_allowed(from, to) {
            if t.len() > 0 && t[0] == to {
            } else if t.len() > 1 && t[1] == to {
            } else if t.len() > 2 && t[2] == to {
            } else if t.len() > 3 && t[3] == to {
            } else if t.len() > 4 && t[4] == to {
            }
        }
    }
}

/// `SubscriptionStatus::Archived` is terminal: no other status can be reached from it.
pub proof fn lemma_archived_is_terminal(to: SubscriptionStatus)
    requires
        transition_allowed(SubscriptionStatus::Archived, to),
    ensures
        to == SubscriptionStatus::Archived,
{
}

} // verus!
