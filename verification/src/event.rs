use vstd::prelude::*;

use crate::error::ProgramError;
use crate::ident::{uuid_version, uuid_version_num};
use crate::state::{
    Event, EventMeta, Principal, State, User, COMPLETION_DEADLINE, EVENT_META_VERSION,
    EVENT_VERSION, UUID_VERSION,
};

verus! {

/// Arguments supplied by the caller of event creation.
#[derive(Clone, Copy, Debug, PartialEq, Eq)]
pub struct CreateEventArgs {
    pub name: [u8; 32],
    pub is_private: bool,
    pub description: [u8; 256],
    pub start_date: i64,
    pub end_date: i64,
    pub participation_deadline: Option<i64>,
}

/// Records addressed by event creation: the caller's ledger, the global
/// configuration, the two fresh event records, and the balance of the vault
/// bound to the event's storage location.
#[derive(Clone, Copy, Debug, PartialEq, Eq)]
pub struct CreateEvent {
    pub authority: Principal,
    pub user: User,
    pub state: State,
    pub event: Event,
    pub event_meta: EventMeta,
    pub vault: u64,
}

impl CreateEvent {
    /// Validation that depends on the identifier and the arguments alone:
    /// the identifier carries the required version tag, the start date lies
    /// strictly before the end date, and a participation deadline, when
    /// present, lies in `[start_date, end_date]` inclusive.
    pub open spec fn args_valid(event_id: u128, args: CreateEventArgs) -> bool {
        &&& uuid_version(event_id) == UUID_VERSION as u128
        &&& args.start_date < args.end_date
        &&& (match args.participation_deadline {
            Some(d) => args.start_date <= d && d <= args.end_date,
            None => true,
        })
    }

    /// The failure kind that argument validation reports.
    pub open spec fn args_err(event_id: u128, args: CreateEventArgs) -> ProgramError {
        if uuid_version(event_id) != UUID_VERSION as u128 {
            ProgramError::InvalidIdentifier
        } else {
            ProgramError::InvalidEndDate
        }
    }

    /// Creation succeeds exactly when the arguments are valid and the
    /// caller's spendable stake covers the configured price.
    pub open spec fn create_ok(self, event_id: u128, args: CreateEventArgs) -> bool {
        &&& Self::args_valid(event_id, args)
        &&& self.user.stake >= self.state.event_price
    }

    /// The failure kind creation reports, by the first violated check.
    pub open spec fn create_err(self, event_id: u128, args: CreateEventArgs) -> ProgramError {
        if !Self::args_valid(event_id, args) {
            Self::args_err(event_id, args)
        } else {
            ProgramError::StakeTooLow
        }
    }

    /// The state after a successful creation: both event records populated
    /// from the arguments, the caller's stake moved into escrow, and the
    /// vault credited by the same amount.
    pub open spec fn create_transition(self, event_id: u128, args: CreateEventArgs) -> CreateEvent {
        CreateEvent {
            user: User {
                stake: (self.user.stake - self.state.event_price) as u64,
                locked_stake: (self.user.locked_stake + self.state.event_price) as u64,
                ..self.user
            },
            event: Event {
                id: event_id,
                authority: self.authority,
                stake: self.state.event_price,
                start_date: args.start_date,
                end_date: args.end_date,
                participation_deadline: args.participation_deadline,
                canceled: false,
                result: None,
                version: EVENT_VERSION,
            },
            event_meta: EventMeta {
                event_id: event_id,
                name: args.name,
                description: args.description,
                is_private: args.is_private,
                version: EVENT_META_VERSION,
            },
            vault: (self.vault + self.state.event_price) as u64,
            ..self
        }
    }

    /// Checks the identifier's version tag and the date bounds of the
    /// arguments; mutates nothing.
    pub fn validate(&mut self, event_id: u128, args: &CreateEventArgs) -> (r: Result<
        (),
        ProgramError,
    >)
        ensures
            *final(self) == *old(self),
            match r {
                Ok(()) => Self::args_valid(event_id, *args),
                Err(e) => !Self::args_valid(event_id, *args) && e == Self::args_err(
                    event_id,
                    *args,
                ),
            },
    {
        let version: usize = uuid_version_num(event_id);
        if version != UUID_VERSION {
            return Err(ProgramError::InvalidIdentifier);
        }
        if !(args.start_date < args.end_date) {
            return Err(ProgramError::InvalidEndDate);
        }
        if let Some(deadline) = args.participation_deadline {
            if !(args.start_date <= deadline && deadline <= args.end_date) {
                return Err(ProgramError::InvalidEndDate);
            }
        }
        Ok(())
    }

    /// Creates the event: validates the identifier, the dates and the
    /// caller's balance, populates both records, debits the caller's
    /// spendable stake by the configured price, escrows the same amount in
    /// the caller's locked stake, and credits the event's vault. A failure
    /// leaves every record unchanged.
    pub fn create_event(&mut self, event_id: u128, args: CreateEventArgs) -> (r: Result<
        (),
        ProgramError,
    >)
        requires
            old(self).create_ok(event_id, args) ==> old(self).user.locked_stake + old(
                self,
            ).state.event_price <= u64::MAX && old(self).vault + old(self).state.event_price
                <= u64::MAX,
        ensures
            match r {
                Ok(()) => old(self).create_ok(event_id, args) && *final(self) == old(
                    self,
                ).create_transition(event_id, args),
                Err(e) => !old(self).create_ok(event_id, args) && e == old(self).create_err(
                    event_id,
                    args,
                ) && *final(self) == *old(self),
            },
    {
        match self.validate(event_id, &args) {
            Ok(()) => {},
            Err(e) => {
                return Err(e);
            },
        }
        if self.user.stake < self.state.event_price {
            return Err(ProgramError::StakeTooLow);
        }
        let stake: u64 = self.state.event_price;

        self.event.id = event_id;
        self.event.authority = self.authority;
        self.event.stake = stake;
        self.event.start_date = args.start_date;
        self.event.end_date = args.end_date;
        self.event.participation_deadline = args.participation_deadline;
        self.event.canceled = false;
        self.event.result = None;
        self.event.version = EVENT_VERSION;

        self.event_meta.event_id = event_id;
        self.event_meta.name = args.name;
        self.event_meta.description = args.description;
        self.event_meta.is_private = args.is_private;
        self.event_meta.version = EVENT_META_VERSION;

        self.user.stake = self.user.stake - stake;
        self.user.locked_stake = self.user.locked_stake + stake;
        self.vault = self.vault + stake;

        Ok(())
    }
}

/// Records addressed by the update operations: the caller and the two halves
/// of the event being edited.
#[derive(Clone, Copy, Debug, PartialEq, Eq)]
pub struct UpdateEvent {
    pub authority: Principal,
    pub event: Event,
    pub event_meta: EventMeta,
}

impl UpdateEvent {
    /// Shared gate of every update: the caller is the event's creator and
    /// the event has not started yet.
    pub open spec fn gate_ok(self, now: i64) -> bool {
        &&& self.event.authority == self.authority
        &&& now < self.event.start_date
    }

    /// The failure kind the shared gate reports, authority checked first.
    pub open spec fn gate_err(self, now: i64) -> ProgramError {
        if self.event.authority != self.authority {
            ProgramError::AuthorityMismatch
        } else {
            ProgramError::EventAlreadyStarted
        }
    }

    /// A replacement end date is valid when it lies strictly after the start
    /// date and no earlier than an existing participation deadline.
    pub open spec fn end_date_valid(self, end_date: i64) -> bool {
        &&& self.event.start_date < end_date
        &&& (match self.event.participation_deadline {
            Some(d) => d <= end_date,
            None => true,
        })
    }

    /// A replacement participation deadline is valid when absent, or when it
    /// lies in `[start_date, end_date]` inclusive, against the current,
    /// unmodified end date.
    pub open spec fn deadline_valid(self, participation_deadline: Option<i64>) -> bool {
        match participation_deadline {
            Some(d) => self.event.start_date <= d && d <= self.event.end_date,
            None => true,
        }
    }

    /// Overwrites the event's name; no validation beyond the shared gate.
    pub fn update_event_name(&mut self, _event_id: u128, name: [u8; 32], now: i64) -> (r: Result<
        (),
        ProgramError,
    >)
        ensures
            match r {
                Ok(()) => old(self).gate_ok(now) && *final(self) == (UpdateEvent {
                    event_meta: EventMeta { name, ..old(self).event_meta },
                    ..*old(self)
                }),
                Err(e) => !old(self).gate_ok(now) && e == old(self).gate_err(now) && *final(self)
                    == *old(self),
            },
    {
        if self.event.authority != self.authority {
            return Err(ProgramError::AuthorityMismatch);
        }
        if !(now < self.event.start_date) {
            return Err(ProgramError::EventAlreadyStarted);
        }
        self.event_meta.name = name;
        Ok(())
    }

    /// Overwrites the event's description; no validation beyond the shared
    /// gate.
    pub fn update_event_description(
        &mut self,
        _event_id: u128,
        description: [u8; 256],
        now: i64,
    ) -> (r: Result<(), ProgramError>)
        ensures
            match r {
                Ok(()) => old(self).gate_ok(now) && *final(self) == (UpdateEvent {
                    event_meta: EventMeta { description, ..old(self).event_meta },
                    ..*old(self)
                }),
                Err(e) => !old(self).gate_ok(now) && e == old(self).gate_err(now) && *final(self)
                    == *old(self),
            },
    {
        if self.event.authority != self.authority {
            return Err(ProgramError::AuthorityMismatch);
        }
        if !(now < self.event.start_date) {
            return Err(ProgramError::EventAlreadyStarted);
        }
        self.event_meta.description = description;
        Ok(())
    }

    /// Replaces the event's end date after checking its bounds.
    pub fn update_event_end_date(&mut self, _event_id: u128, end_date: i64, now: i64) -> (r: Result<
        (),
        ProgramError,
    >)
        ensures
            match r {
                Ok(()) => old(self).gate_ok(now) && old(self).end_date_valid(end_date)
                    && *final(self) == (UpdateEvent {
                    event: Event { end_date, ..old(self).event },
                    ..*old(self)
                }),
                Err(e) => *final(self) == *old(self) && (if !old(self).gate_ok(now) {
                    e == old(self).gate_err(now)
                } else {
                    !old(self).end_date_valid(end_date) && e == ProgramError::InvalidEndDate
                }),
            },
    {
        if self.event.authority != self.authority {
            return Err(ProgramError::AuthorityMismatch);
        }
        if !(now < self.event.start_date) {
            return Err(ProgramError::EventAlreadyStarted);
        }
        if !(self.event.start_date < end_date) {
            return Err(ProgramError::InvalidEndDate);
        }
        if let Some(deadline) = self.event.participation_deadline {
            if !(deadline <= end_date) {
                return Err(ProgramError::InvalidEndDate);
            }
        }
        self.event.end_date = end_date;
        Ok(())
    }

    /// Replaces or clears the event's participation deadline after checking
    /// its bounds against the current dates.
    pub fn update_event_participation_deadline(
        &mut self,
        _event_id: u128,
        participation_deadline: Option<i64>,
        now: i64,
    ) -> (r: Result<(), ProgramError>)
        ensures
            match r {
                Ok(()) => old(self).gate_ok(now) && old(self).deadline_valid(participation_deadline)
                    && *final(self) == (UpdateEvent {
                    event: Event { participation_deadline, ..old(self).event },
                    ..*old(self)
                }),
                Err(e) => *final(self) == *old(self) && (if !old(self).gate_ok(now) {
                    e == old(self).gate_err(now)
                } else {
                    !old(self).deadline_valid(participation_deadline) && e
                        == ProgramError::InvalidEndDate
                }),
            },
    {
        if self.event.authority != self.authority {
            return Err(ProgramError::AuthorityMismatch);
        }
        if !(now < self.event.start_date) {
            return Err(ProgramError::EventAlreadyStarted);
        }
        if let Some(deadline) = participation_deadline {
            if !(self.event.start_date <= deadline && deadline <= self.event.end_date) {
                return Err(ProgramError::InvalidEndDate);
            }
        }
        self.event.participation_deadline = participation_deadline;
        Ok(())
    }
}

/// Records addressed by cancellation: the sender, the configured admin
/// identity and its balance, the creator's ledger, the event, and the
/// balance of the event's vault.
#[derive(Clone, Copy, Debug, PartialEq, Eq)]
pub struct CancelEvent {
    pub sender: Principal,
    pub contract_admin: Principal,
    pub state: State,
    pub user: User,
    pub event: Event,
    pub vault: u64,
    pub admin_balance: u64,
}

impl CancelEvent {
    /// The supplied admin account is the one the global configuration names.
    pub open spec fn admin_matches(self) -> bool {
        self.state.authority == self.contract_admin
    }

    /// The sender may cancel as the event's creator, or as anyone once the
    /// grace period after the end date has passed.
    pub open spec fn sender_authorized(self, now: i64) -> bool {
        ||| self.sender == self.event.authority
        ||| now > self.event.end_date + COMPLETION_DEADLINE
    }

    /// Cancellation succeeds exactly when the admin account matches the
    /// configuration and the sender is authorized. The event's terminal
    /// flags are not consulted.
    pub open spec fn cancel_ok(self, now: i64) -> bool {
        &&& self.admin_matches()
        &&& self.sender_authorized(now)
    }

    /// The state after a successful cancellation. In both branches the
    /// creator's locked stake falls by the event's stake, the vault is
    /// drained by the same amount, and the event is marked canceled; an
    /// event that already began forfeits the stake to the admin's balance,
    /// one that has not refunds it to the creator's spendable stake.
    pub open spec fn cancel_transition(self, now: i64) -> CancelEvent {
        if self.event.start_date <= now {
            CancelEvent {
                user: User {
                    locked_stake: (self.user.locked_stake - self.event.stake) as u64,
                    ..self.user
                },
                event: Event { canceled: true, ..self.event },
                vault: (self.vault - self.event.stake) as u64,
                admin_balance: (self.admin_balance + self.event.stake) as u64,
                ..self
            }
        } else {
            CancelEvent {
                user: User {
                    stake: (self.user.stake + self.event.stake) as u64,
                    locked_stake: (self.user.locked_stake - self.event.stake) as u64,
                    ..self.user
                },
                event: Event { canceled: true, ..self.event },
                vault: (self.vault - self.event.stake) as u64,
                ..self
            }
        }
    }

    /// Cancels the event and routes the escrowed stake: back to the creator
    /// when the event has not started, to the admin when it has. A failure
    /// leaves every record unchanged. The preconditions mirror the
    /// fund-transfer primitive's demand that the vault and the locked stake
    /// cover the amount moved, and the machine bounds of the balance and
    /// grace-period arithmetic.
    pub fn cancel_event(&mut self, event_id: u128, now: i64) -> (r: Result<(), ProgramError>)
        requires
            old(self).admin_matches() && old(self).sender != old(self).event.authority ==> old(
                self,
            ).event.end_date + COMPLETION_DEADLINE <= i64::MAX,
            old(self).cancel_ok(now) ==> old(self).user.locked_stake >= old(self).event.stake && old(
                self,
            ).vault >= old(self).event.stake,
            old(self).cancel_ok(now) && old(self).event.start_date <= now ==> old(
                self,
            ).admin_balance + old(self).event.stake <= u64::MAX,
            old(self).cancel_ok(now) && now < old(self).event.start_date ==> old(self).user.stake
                + old(self).event.stake <= u64::MAX,
        ensures
            match r {
                Ok(()) => old(self).cancel_ok(now) && *final(self) == old(self).cancel_transition(
                    now,
                ),
                Err(e) => !old(self).cancel_ok(now) && e == ProgramError::AuthorityMismatch
                    && *final(self) == *old(self),
            },
    {
        if self.state.authority != self.contract_admin {
            return Err(ProgramError::AuthorityMismatch);
        }
        let authorized: bool = self.sender == self.event.authority || now > self.event.end_date
            + COMPLETION_DEADLINE;
        if !authorized {
            return Err(ProgramError::AuthorityMismatch);
        }
        if self.event.start_date <= now {
            self.user.locked_stake = self.user.locked_stake - self.event.stake;
            self.vault = self.vault - self.event.stake;
            self.admin_balance = self.admin_balance + self.event.stake;
        } else {
            self.user.locked_stake = self.user.locked_stake - self.event.stake;
            self.user.stake = self.user.stake + self.event.stake;
            self.vault = self.vault - self.event.stake;
        }
        self.event.canceled = true;
        Ok(())
    }
}

/// Records addressed by completion: the caller, the global configuration,
/// and the event.
#[derive(Clone, Copy, Debug, PartialEq, Eq)]
pub struct CompleteEvent {
    pub authority: Principal,
    pub state: State,
    pub event: Event,
}

impl CompleteEvent {
    /// Completion succeeds exactly when the caller is the event's creator
    /// and the end date lies strictly in the past. The event's terminal
    /// flags are not consulted.
    pub open spec fn complete_ok(self, now: i64) -> bool {
        &&& self.event.authority == self.authority
        &&& self.event.end_date < now
    }

    /// The failure kind completion reports, authority checked first.
    pub open spec fn complete_err(self, now: i64) -> ProgramError {
        if self.event.authority != self.authority {
            ProgramError::AuthorityMismatch
        } else {
            ProgramError::EventIsNotOver
        }
    }

    /// The state after a successful completion: only the outcome code is
    /// recorded. No funds move; the stake stays escrowed.
    pub open spec fn complete_transition(self, result: u8) -> CompleteEvent {
        CompleteEvent { event: Event { result: Some(result), ..self.event }, ..self }
    }

    /// Records the outcome code on an event whose end date has passed. A
    /// failure leaves every record unchanged.
    pub fn complete_event(&mut self, event_id: u128, result: u8, now: i64) -> (r: Result<
        (),
        ProgramError,
    >)
        ensures
            match r {
                Ok(()) => old(self).complete_ok(now) && *final(self) == old(
                    self,
                ).complete_transition(result),
                Err(e) => !old(self).complete_ok(now) && e == old(self).complete_err(now)
                    && *final(self) == *old(self),
            },
    {
        if self.event.authority != self.authority {
            return Err(ProgramError::AuthorityMismatch);
        }
        if !(self.event.end_date < now) {
            return Err(ProgramError::EventIsNotOver);
        }
        self.event.result = Some(result);
        Ok(())
    }
}

} // verus!
