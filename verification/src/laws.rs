use vstd::prelude::*;

use crate::event::{CancelEvent, CompleteEvent, CreateEvent, CreateEventArgs, UpdateEvent};
use crate::ident::uuid_version;
use crate::state::{Event, COMPLETION_DEADLINE, UUID_VERSION};

verus! {

/// Fund conservation at creation: the spendable stake and the vault balance
/// move as one sum, and the locked stake grows by exactly what the vault
/// gains, so the operation moves value without creating or destroying it.
pub proof fn lemma_create_conserves_funds(
    pre: CreateEvent,
    post: CreateEvent,
    event_id: u128,
    args: CreateEventArgs,
)
    requires
        pre.create_ok(event_id, args),
        post == pre.create_transition(event_id, args),
        pre.user.locked_stake + pre.state.event_price <= u64::MAX,
        pre.vault + pre.state.event_price <= u64::MAX,
    ensures
        post.user.stake + post.vault == pre.user.stake + pre.vault,
        post.user.locked_stake - pre.user.locked_stake == post.vault - pre.vault,
{
}

/// Fund conservation at cancellation: across the creator's spendable stake,
/// the vault and the admin's balance, value only moves, in either branch;
/// and the locked stake falls by exactly what the vault loses.
pub proof fn lemma_cancel_conserves_funds(pre: CancelEvent, post: CancelEvent, now: i64)
    requires
        pre.cancel_ok(now),
        post == pre.cancel_transition(now),
        pre.user.locked_stake >= pre.event.stake,
        pre.vault >= pre.event.stake,
        pre.event.start_date <= now ==> pre.admin_balance + pre.event.stake <= u64::MAX,
        now < pre.event.start_date ==> pre.user.stake + pre.event.stake <= u64::MAX,
    ensures
        post.user.stake + post.vault + post.admin_balance == pre.user.stake + pre.vault
            + pre.admin_balance,
        pre.user.locked_stake - post.user.locked_stake == pre.vault - post.vault,
{
}

/// Locked-stake movement at creation: the locked stake rises by exactly the
/// configured price and the spendable stake falls by the same amount.
pub proof fn lemma_create_locked_stake(
    pre: CreateEvent,
    post: CreateEvent,
    event_id: u128,
    args: CreateEventArgs,
)
    requires
        pre.create_ok(event_id, args),
        post == pre.create_transition(event_id, args),
        pre.user.locked_stake + pre.state.event_price <= u64::MAX,
    ensures
        post.user.locked_stake == pre.user.locked_stake + pre.state.event_price,
        post.user.stake == pre.user.stake - pre.state.event_price,
{
}

/// Stake sufficiency boundary: with valid arguments, creation succeeds
/// exactly when the spendable stake covers the price, so a stake equal to
/// the price is enough and one below it is rejected.
pub proof fn lemma_create_stake_boundary(pre: CreateEvent, event_id: u128, args: CreateEventArgs)
    requires
        CreateEvent::args_valid(event_id, args),
    ensures
        pre.create_ok(event_id, args) <==> pre.user.stake >= pre.state.event_price,
{
}

/// Date bounds at creation: a start date at or after the end date is
/// rejected, and the participation deadline's bounds are inclusive on both
/// sides, so a deadline equal to either date is accepted and one a unit
/// outside is rejected.
pub proof fn lemma_create_date_bounds(event_id: u128, args: CreateEventArgs)
    requires
        uuid_version(event_id) == UUID_VERSION as u128,
    ensures
        args.start_date >= args.end_date ==> !CreateEvent::args_valid(event_id, args),
        args.start_date < args.end_date && args.participation_deadline == Some(args.start_date)
            ==> CreateEvent::args_valid(event_id, args),
        args.start_date < args.end_date && args.participation_deadline == Some(args.end_date)
            ==> CreateEvent::args_valid(event_id, args),
        (args.participation_deadline matches Some(d) && d < args.start_date)
            ==> !CreateEvent::args_valid(event_id, args),
        (args.participation_deadline matches Some(d) && d > args.end_date)
            ==> !CreateEvent::args_valid(event_id, args),
{
}

/// Date bounds at an end-date update: a replacement at or before the start
/// date is rejected, a deadline equal to the replacement is accepted, and a
/// deadline a unit beyond it is rejected.
pub proof fn lemma_update_end_date_bounds(pre: UpdateEvent, end_date: i64)
    ensures
        end_date <= pre.event.start_date ==> !pre.end_date_valid(end_date),
        pre.event.start_date < end_date && pre.event.participation_deadline == Some(end_date)
            ==> pre.end_date_valid(end_date),
        (pre.event.participation_deadline matches Some(d) && d > end_date) ==> !pre.end_date_valid(
            end_date,
        ),
        pre.event.participation_deadline is None && pre.event.start_date < end_date
            ==> pre.end_date_valid(end_date),
{
}

/// Deadline bounds at a participation-deadline update: both ends of
/// `[start_date, end_date]` are accepted, a unit outside either end is
/// rejected, and clearing the deadline is always valid.
pub proof fn lemma_update_deadline_bounds(pre: UpdateEvent, participation_deadline: Option<i64>)
    ensures
        participation_deadline == Some(pre.event.start_date) && pre.event.start_date
            <= pre.event.end_date ==> pre.deadline_valid(participation_deadline),
        participation_deadline == Some(pre.event.end_date) && pre.event.start_date
            <= pre.event.end_date ==> pre.deadline_valid(participation_deadline),
        (participation_deadline matches Some(d) && d < pre.event.start_date)
            ==> !pre.deadline_valid(participation_deadline),
        (participation_deadline matches Some(d) && d > pre.event.end_date) ==> !pre.deadline_valid(
            participation_deadline,
        ),
        participation_deadline is None ==> pre.deadline_valid(participation_deadline),
{
}

/// Update gating: every update fails once the clock reaches the start date,
/// while the creator may still edit at the last instant before it.
pub proof fn lemma_update_gating(pre: UpdateEvent, now: i64)
    ensures
        now >= pre.event.start_date ==> !pre.gate_ok(now),
        pre.event.authority == pre.authority && now == pre.event.start_date - 1 ==> pre.gate_ok(
            now,
        ),
{
}

/// Cancel routing: before the start date the stake is refunded to the
/// creator's spendable balance; at or after it the stake is forfeited to the
/// admin and the creator's spendable balance is untouched. Either way the
/// locked stake falls by the event's stake and the event is marked canceled.
pub proof fn lemma_cancel_routing(pre: CancelEvent, post: CancelEvent, now: i64)
    requires
        post == pre.cancel_transition(now),
        pre.user.locked_stake >= pre.event.stake,
        pre.vault >= pre.event.stake,
        pre.event.start_date <= now ==> pre.admin_balance + pre.event.stake <= u64::MAX,
        now < pre.event.start_date ==> pre.user.stake + pre.event.stake <= u64::MAX,
    ensures
        now < pre.event.start_date ==> post.user.stake == pre.user.stake + pre.event.stake
            && post.admin_balance == pre.admin_balance,
        pre.event.start_date <= now ==> post.user.stake == pre.user.stake && post.admin_balance
            == pre.admin_balance + pre.event.stake,
        post.user.locked_stake == pre.user.locked_stake - pre.event.stake,
        post.vault == pre.vault - pre.event.stake,
        post.event.canceled,
{
}

/// Cancel grace boundary: a sender other than the creator is authorized
/// exactly one unit after the grace period ends, and refused at every
/// instant up to and including its last unit.
pub proof fn lemma_cancel_grace_boundary(pre: CancelEvent, now: i64)
    requires
        pre.admin_matches(),
        pre.sender != pre.event.authority,
    ensures
        now == pre.event.end_date + COMPLETION_DEADLINE + 1 ==> pre.cancel_ok(now),
        now <= pre.event.end_date + COMPLETION_DEADLINE ==> !pre.cancel_ok(now),
{
}

/// Complete gating and outcome round trip: completion by the creator fails
/// at the end date itself, succeeds one unit after it, and records exactly
/// the outcome code it was given.
pub proof fn lemma_complete_gating(pre: CompleteEvent, now: i64, result: u8)
    requires
        pre.event.authority == pre.authority,
    ensures
        now == pre.event.end_date ==> !pre.complete_ok(now),
        now == pre.event.end_date + 1 ==> pre.complete_ok(now),
        pre.complete_transition(result).event.result == Some(result),
{
}

/// Terminal flags are not consulted by cancellation: two states that differ
/// only in the event's `canceled` flag and `result` code are authorized
/// alike, so repeating a cancel on an already-terminal event is not rejected
/// by any explicit state check.
pub proof fn lemma_cancel_ignores_terminal_flags(
    pre: CancelEvent,
    canceled: bool,
    result: Option<u8>,
    now: i64,
)
    ensures
        ({
            let alt = CancelEvent { event: Event { canceled, result, ..pre.event }, ..pre };
            pre.cancel_ok(now) <==> alt.cancel_ok(now)
        }),
{
}

/// Terminal flags are not consulted by completion: two states that differ
/// only in the event's `canceled` flag and `result` code are gated alike, so
/// completing an already-terminal event is not rejected by any explicit
/// state check.
pub proof fn lemma_complete_ignores_terminal_flags(
    pre: CompleteEvent,
    canceled: bool,
    result: Option<u8>,
    now: i64,
)
    ensures
        ({
            let alt = CompleteEvent { event: Event { canceled, result, ..pre.event }, ..pre };
            pre.complete_ok(now) <==> alt.complete_ok(now)
        }),
{
}

} // verus!
