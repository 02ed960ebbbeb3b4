use predictory::error::ProgramError;
use predictory::event::{CancelEvent, CompleteEvent, CreateEvent, CreateEventArgs};
use predictory::state::{Event, EventMeta, State, User, COMPLETION_DEADLINE, EVENT_VERSION};

const ID_OK: u128 = (4u128 << 76) | 0xdead_beef;

fn live_event(start_date: i64, end_date: i64) -> Event {
    Event {
        id: ID_OK,
        authority: 7,
        stake: 100,
        start_date,
        end_date,
        participation_deadline: None,
        canceled: false,
        result: None,
        version: EVENT_VERSION,
    }
}

fn cancel_ctx(sender: u64, start_date: i64, end_date: i64) -> CancelEvent {
    CancelEvent {
        sender,
        contract_admin: 1,
        state: State { authority: 1, event_price: 100 },
        user: User { owner: 7, stake: 20, locked_stake: 100 },
        event: live_event(start_date, end_date),
        vault: 100,
        admin_balance: 0,
    }
}

fn complete_ctx(authority: u64, end_date: i64) -> CompleteEvent {
    CompleteEvent {
        authority,
        state: State { authority: 1, event_price: 100 },
        event: live_event(1000, end_date),
    }
}

#[test]
fn cancel_before_start_refunds_creator() {
    let mut ctx = cancel_ctx(7, 1000, 2000);
    let r = ctx.cancel_event(ID_OK, 999);
    assert_eq!(r, Ok(()));
    assert_eq!(ctx.user.stake, 120);
    assert_eq!(ctx.user.locked_stake, 0);
    assert_eq!(ctx.vault, 0);
    assert_eq!(ctx.admin_balance, 0);
    assert!(ctx.event.canceled);
}

#[test]
fn cancel_at_start_forfeits_to_admin() {
    let mut ctx = cancel_ctx(7, 1000, 2000);
    let r = ctx.cancel_event(ID_OK, 1000);
    assert_eq!(r, Ok(()));
    assert_eq!(ctx.user.stake, 20);
    assert_eq!(ctx.user.locked_stake, 0);
    assert_eq!(ctx.vault, 0);
    assert_eq!(ctx.admin_balance, 100);
    assert!(ctx.event.canceled);
}

#[test]
fn cancel_after_start_forfeits_to_admin() {
    let mut ctx = cancel_ctx(7, 1000, 2000);
    let r = ctx.cancel_event(ID_OK, 1500);
    assert_eq!(r, Ok(()));
    assert_eq!(ctx.user.stake, 20);
    assert_eq!(ctx.admin_balance, 100);
    assert!(ctx.event.canceled);
}

#[test]
fn cancel_by_stranger_fails_within_grace_period() {
    let mut ctx = cancel_ctx(9, 1000, 2000);
    let before = ctx;
    let boundary: i64 = 2000 + COMPLETION_DEADLINE;
    assert_eq!(
        ctx.cancel_event(ID_OK, boundary),
        Err(ProgramError::AuthorityMismatch)
    );
    assert_eq!(ctx, before);
}

#[test]
fn cancel_by_stranger_succeeds_after_grace_period() {
    let mut ctx = cancel_ctx(9, 1000, 2000);
    let after_boundary: i64 = 2000 + COMPLETION_DEADLINE + 1;
    assert_eq!(ctx.cancel_event(ID_OK, after_boundary), Ok(()));
    assert!(ctx.event.canceled);
    assert_eq!(ctx.admin_balance, 100);
    assert_eq!(ctx.user.stake, 20);
}

#[test]
fn cancel_requires_configured_admin_account() {
    let mut ctx = cancel_ctx(7, 1000, 2000);
    ctx.contract_admin = 2;
    let before = ctx;
    assert_eq!(ctx.cancel_event(ID_OK, 999), Err(ProgramError::AuthorityMismatch));
    assert_eq!(ctx, before);
}

#[test]
fn cancel_of_completed_event_is_not_rejected() {
    // No explicit state check guards a terminal event; this documents the
    // behavior rather than a guarantee.
    let mut ctx = cancel_ctx(7, 1000, 2000);
    ctx.event.result = Some(3);
    assert_eq!(ctx.cancel_event(ID_OK, 999), Ok(()));
    assert!(ctx.event.canceled);
    assert_eq!(ctx.event.result, Some(3));
}

#[test]
fn cancel_twice_is_not_rejected_when_balances_allow() {
    // Documents the double-application gap: a second cancel on an
    // already-canceled event is accepted whenever the ledger and vault still
    // cover the stake, and debits them again.
    let mut ctx = cancel_ctx(7, 1000, 2000);
    assert_eq!(ctx.cancel_event(ID_OK, 999), Ok(()));
    assert!(ctx.event.canceled);
    ctx.user.locked_stake = 100;
    ctx.vault = 100;
    assert_eq!(ctx.cancel_event(ID_OK, 999), Ok(()));
    assert_eq!(ctx.user.stake, 220);
    assert_eq!(ctx.user.locked_stake, 0);
}

#[test]
fn complete_fails_at_end_date() {
    let mut ctx = complete_ctx(7, 2000);
    let before = ctx;
    assert_eq!(
        ctx.complete_event(ID_OK, 1, 2000),
        Err(ProgramError::EventIsNotOver)
    );
    assert_eq!(ctx, before);
}

#[test]
fn complete_succeeds_one_unit_after_end_date() {
    let mut ctx = complete_ctx(7, 2000);
    assert_eq!(ctx.complete_event(ID_OK, 1, 2001), Ok(()));
    assert_eq!(ctx.event.result, Some(1));
}

#[test]
fn complete_requires_matching_authority() {
    let mut ctx = complete_ctx(8, 2000);
    assert_eq!(
        ctx.complete_event(ID_OK, 1, 3000),
        Err(ProgramError::AuthorityMismatch)
    );
    assert_eq!(ctx.event.result, None);
}

#[test]
fn complete_result_code_round_trips() {
    for code in [0u8, 1, 7, 255] {
        let mut ctx = complete_ctx(7, 2000);
        assert_eq!(ctx.complete_event(ID_OK, code, 2001), Ok(()));
        assert_eq!(ctx.event.result, Some(code));
    }
}

#[test]
fn complete_twice_is_not_rejected() {
    // Documents the double-application gap: completion overwrites the
    // outcome of an already-completed event.
    let mut ctx = complete_ctx(7, 2000);
    assert_eq!(ctx.complete_event(ID_OK, 1, 2001), Ok(()));
    assert_eq!(ctx.complete_event(ID_OK, 2, 2001), Ok(()));
    assert_eq!(ctx.event.result, Some(2));
}

#[test]
fn complete_of_canceled_event_is_not_rejected() {
    let mut ctx = complete_ctx(7, 2000);
    ctx.event.canceled = true;
    assert_eq!(ctx.complete_event(ID_OK, 5, 2001), Ok(()));
    assert_eq!(ctx.event.result, Some(5));
    assert!(ctx.event.canceled);
}

#[test]
fn end_to_end_lifecycle() {
    // Principal A holds stake 100 against a price of 100; creation escrows
    // it all, an end-date edit before the start succeeds, and completion
    // after the new end date records the outcome with the ledger unchanged.
    let mut create = CreateEvent {
        authority: 7,
        user: User { owner: 7, stake: 100, locked_stake: 0 },
        state: State { authority: 1, event_price: 100 },
        event: Event {
            id: 0,
            authority: 0,
            stake: 0,
            start_date: 0,
            end_date: 0,
            participation_deadline: None,
            canceled: false,
            result: None,
            version: 0,
        },
        event_meta: EventMeta {
            event_id: 0,
            name: [0u8; 32],
            description: [0u8; 256],
            is_private: false,
            version: 0,
        },
        vault: 0,
    };
    let args = CreateEventArgs {
        name: [1u8; 32],
        is_private: false,
        description: [2u8; 256],
        start_date: 1000,
        end_date: 2000,
        participation_deadline: None,
    };
    assert_eq!(create.create_event(ID_OK, args), Ok(()));
    assert_eq!(create.user.stake, 0);
    assert_eq!(create.user.locked_stake, 100);

    let mut update = predictory::event::UpdateEvent {
        authority: 7,
        event: create.event,
        event_meta: create.event_meta,
    };
    let now_before_start: i64 = 999;
    assert_eq!(update.update_event_end_date(ID_OK, 2500, now_before_start), Ok(()));
    assert_eq!(update.event.end_date, 2500);

    let mut complete = CompleteEvent {
        authority: 7,
        state: create.state,
        event: update.event,
    };
    let now_after_end: i64 = 2600;
    assert_eq!(complete.complete_event(ID_OK, 1, now_after_end), Ok(()));
    assert_eq!(complete.event.result, Some(1));
    assert_eq!(create.user.stake, 0);
    assert_eq!(create.user.locked_stake, 100);
}
