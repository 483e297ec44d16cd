//! A single-issuer token-distribution event ledger: a creator registers an
//! event with a fixed token supply, participants claim one unit each until the
//! supply is exhausted, and the creator may close the event early.
//!
//! The library is the event record's state machine: the record type, its
//! invariant, and the three transitions `initialize_event`, `claim_token` and
//! `deactivate_event`, each with a contract that pins the produced state and
//! the exact error on every rejected request. The host runtime is responsible
//! for storage, clocks and identity verification; it hands those in as plain
//! values.

pub mod laws;
pub mod record;
pub mod transitions;

pub use record::ErrorCode;
pub use record::Event;
pub use record::EventModel;
pub use record::EventState;
pub use record::Pubkey;
pub use record::MAX_DESCRIPTION_LEN;
pub use record::MAX_NAME_LEN;
pub use transitions::claim_token;
pub use transitions::deactivate_event;
pub use transitions::initialize_event;
pub use transitions::spec_claim;
pub use transitions::spec_deactivate;
pub use transitions::spec_initialize;
pub use transitions::ClaimToken;
pub use transitions::DeactivateEvent;
pub use transitions::InitializeEvent;
