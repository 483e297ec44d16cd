//! The persistent record of one token-distribution event, together with its
//! mathematical model and the error taxonomy of the transitions that mutate it.

use vstd::prelude::*;

verus! {

/// Maximum length, in characters, of an event's display name.
pub const MAX_NAME_LEN: usize = 100;

/// Maximum length, in characters, of an event's description.
pub const MAX_DESCRIPTION_LEN: usize = 500;

/// A 256-bit account identity, held as four 64-bit words.
///
/// The host runtime authenticates callers before a transition request reaches
/// this library; here an identity is only ever compared for equality.
#[derive(Clone, Copy, PartialEq, Eq, Structural, Debug)]
pub struct Pubkey {
    pub w0: u64,
    pub w1: u64,
    pub w2: u64,
    pub w3: u64,
}

/// Why a transition request was rejected. Every failure leaves the record
/// byte-for-byte unchanged, and none is retriable by this library.
#[derive(Clone, Copy, PartialEq, Eq, Structural, Debug)]
pub enum ErrorCode {
    /// The name or the description offered to `initialize_event` exceeds its
    /// fixed budget.
    FieldTooLong,
    /// The host could not materialize a fresh storage slot for the record.
    AllocationFailed,
    /// A claim was attempted on a deactivated event.
    EventInactive,
    /// A claim was attempted after the supply was exhausted.
    NoTokensLeft,
    /// Deactivation was attempted by an identity other than the creator.
    Unauthorized,
}

/// One distribution event, as the host's storage layer persists it.
pub struct Event {
    /// Identity that created the event; immutable after creation.
    pub creator: Pubkey,
    /// Display name, at most `MAX_NAME_LEN` characters.
    pub event_name: String,
    /// Description, at most `MAX_DESCRIPTION_LEN` characters.
    pub event_description: String,
    /// Total claimable units; immutable after creation.
    pub token_supply: u64,
    /// Units already claimed; starts at 0 and never decreases while active.
    pub tokens_claimed: u64,
    /// Claim eligibility gate; starts true and only ever flips true to false.
    pub is_active: bool,
    /// Creation timestamp from the host clock; immutable after creation.
    pub created_at: i64,
}

impl Event {
    /// Bytes the host storage layout reserves for one record: an 8-byte
    /// discriminator, the 32-byte creator identity, each string as a 4-byte
    /// length prefix plus its maximum body, the two 8-byte counters, the
    /// 1-byte activity flag, and the 8-byte timestamp.
    pub const LEN: usize = 8 + 32 + (4 + 100) + (4 + 500) + 8 + 8 + 1 + 8;
}

/// The mathematical value of an [`Event`]: the same fields with the strings
/// abstracted to character sequences.
#[verifier::ext_equal]
pub struct EventModel {
    pub creator: Pubkey,
    pub event_name: Seq<char>,
    pub event_description: Seq<char>,
    pub token_supply: u64,
    pub tokens_claimed: u64,
    pub is_active: bool,
    pub created_at: i64,
}

impl View for Event {
    type V = EventModel;

    open spec fn view(&self) -> EventModel {
        EventModel {
            creator: self.creator,
            event_name: self.event_name@,
            event_description: self.event_description@,
            token_supply: self.token_supply,
            tokens_claimed: self.tokens_claimed,
            is_active: self.is_active,
            created_at: self.created_at,
        }
    }
}

/// The three observable states of a record's lifecycle.
pub enum EventState {
    /// Claims are possible: active, with supply remaining.
    Active,
    /// Active, but every unit has been claimed.
    Exhausted,
    /// Deactivated; terminal.
    Closed,
}

impl EventModel {
    /// The record invariant: the claim counter never exceeds the supply, and
    /// both strings fit their fixed storage budgets.
    pub open spec fn wf(self) -> bool {
        &&& self.tokens_claimed <= self.token_supply
        &&& self.event_name.len() <= MAX_NAME_LEN
        &&& self.event_description.len() <= MAX_DESCRIPTION_LEN
    }

    /// Which lifecycle state the record is in.
    pub open spec fn state(self) -> EventState {
        if !self.is_active {
            EventState::Closed
        } else if self.tokens_claimed == self.token_supply {
            EventState::Exhausted
        } else {
            EventState::Active
        }
    }
}

} // verus!
