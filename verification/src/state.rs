use vstd::prelude::*;

verus! {

/// An authenticated identity capable of issuing requests.
pub type Principal = u64;

/// Version tag that every supplied 128-bit event identifier must carry.
pub const UUID_VERSION: usize = 4;

/// Grace period after an event's end date, in seconds. Once it has passed,
/// cancellation authority widens beyond the event's creator to the
/// admin-routed refund path.
pub const COMPLETION_DEADLINE: i64 = 2_592_000;

/// Schema version written into every freshly created `Event` record.
pub const EVENT_VERSION: u8 = 1;

/// Schema version written into every freshly created `EventMeta` record.
pub const EVENT_META_VERSION: u8 = 1;

/// Global configuration singleton: the admin identity and the fixed stake
/// price required per event. Read-only to the handlers.
#[derive(Clone, Copy, Debug, PartialEq, Eq)]
pub struct State {
    pub authority: Principal,
    pub event_price: u64,
}

/// Per-principal ledger: spendable stake and the portion escrowed against
/// the principal's active events.
#[derive(Clone, Copy, Debug, PartialEq, Eq)]
pub struct User {
    pub owner: Principal,
    pub stake: u64,
    pub locked_stake: u64,
}

/// Fixed-size transactional half of an event record.
#[derive(Clone, Copy, Debug, PartialEq, Eq)]
pub struct Event {
    pub id: u128,
    pub authority: Principal,
    pub stake: u64,
    pub start_date: i64,
    pub end_date: i64,
    pub participation_deadline: Option<i64>,
    pub canceled: bool,
    pub result: Option<u8>,
    pub version: u8,
}

/// Descriptive half of an event record, correlated with `Event` by `event_id`.
#[derive(Clone, Copy, Debug, PartialEq, Eq)]
pub struct EventMeta {
    pub event_id: u128,
    pub name: [u8; 32],
    pub description: [u8; 256],
    pub is_private: bool,
    pub version: u8,
}

} // verus!
