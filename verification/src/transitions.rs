//! The three transitions of an event record, each given first as a spec
//! function on the mathematical model and then as executable code whose
//! contract equates its outcome with the spec function.

use crate::record::ErrorCode;
use crate::record::Event;
use crate::record::EventModel;
use crate::record::EventState;
use crate::record::Pubkey;
use crate::record::MAX_DESCRIPTION_LEN;
use crate::record::MAX_NAME_LEN;
use vstd::prelude::*;

verus! {

/// An `initialize_event` request, as the host hands it in: the authenticated
/// creator identity, and whether the host managed to allocate a fresh, empty
/// storage slot for the record.
pub struct InitializeEvent {
    pub creator: Pubkey,
    pub slot_allocated: bool,
}

/// A `claim_token` request: the authenticated identity of the claimer. The
/// identity is used only for the host's success notification; claims are not
/// deduplicated by identity.
pub struct ClaimToken {
    pub claimer: Pubkey,
}

/// A `deactivate_event` request: the authenticated identity of the caller,
/// who must be the record's creator for the request to succeed.
pub struct DeactivateEvent {
    pub creator: Pubkey,
}

/// What `initialize_event` produces: the fully written record, or the exact
/// error. Allocation is the host's first step, so its failure is reported
/// before the field budgets are checked.
pub open spec fn spec_initialize(
    creator: Pubkey,
    event_name: Seq<char>,
    event_description: Seq<char>,
    token_supply: u64,
    now: i64,
    slot_allocated: bool,
) -> Result<EventModel, ErrorCode> {
    if !slot_allocated {
        Err(ErrorCode::AllocationFailed)
    } else if event_name.len() > MAX_NAME_LEN || event_description.len() > MAX_DESCRIPTION_LEN {
        Err(ErrorCode::FieldTooLong)
    } else {
        Ok(
            EventModel {
                creator,
                event_name,
                event_description,
                token_supply,
                tokens_claimed: 0,
                is_active: true,
                created_at: now,
            },
        )
    }
}

/// What `claim_token` produces from a record: the updated claim count and the
/// incremented record, or the exact error with the record unchanged.
pub open spec fn spec_claim(m: EventModel) -> (Result<u64, ErrorCode>, EventModel) {
    if !m.is_active {
        (Err(ErrorCode::EventInactive), m)
    } else if m.tokens_claimed >= m.token_supply {
        (Err(ErrorCode::NoTokensLeft), m)
    } else {
        (
            Ok((m.tokens_claimed + 1) as u64),
            EventModel { tokens_claimed: (m.tokens_claimed + 1) as u64, ..m },
        )
    }
}

/// What `deactivate_event` produces from a record: the closed record when the
/// caller is the creator (idempotently, with no other field touched), or
/// `Unauthorized` with the record unchanged.
pub open spec fn spec_deactivate(m: EventModel, caller: Pubkey) -> (
    Result<(), ErrorCode>,
    EventModel,
) {
    if caller != m.creator {
        (Err(ErrorCode::Unauthorized), m)
    } else {
        (Ok(()), EventModel { is_active: false, ..m })
    }
}

/// Register a new event. On success the returned record has every field as
/// requested, no units claimed, the activity gate open, and the host clock's
/// `now` as its creation time; the record therefore starts `Active`, or
/// `Exhausted` when the supply is zero. A request whose slot the host could
/// not allocate, or whose name or description exceeds its fixed budget, is
/// rejected with the corresponding error and no record is created.
pub fn initialize_event(
    ctx: &InitializeEvent,
    event_name: String,
    event_description: String,
    token_supply: u64,
    now: i64,
) -> (r: Result<Event, ErrorCode>)
    ensures
        (match r {
            Ok(event) => Ok::<EventModel, ErrorCode>(event@),
            Err(e) => Err(e),
        }) == spec_initialize(
            ctx.creator,
            event_name@,
            event_description@,
            token_supply,
            now,
            ctx.slot_allocated,
        ),
        r is Ok <==> ctx.slot_allocated && event_name@.len() <= MAX_NAME_LEN
            && event_description@.len() <= MAX_DESCRIPTION_LEN,
        r matches Ok(event) ==> event@.wf() && event@.state() == (if token_supply > 0 {
            EventState::Active
        } else {
            EventState::Exhausted
        }),
{
    if !ctx.slot_allocated {
        return Err(ErrorCode::AllocationFailed);
    }
    if event_name.as_str().unicode_len() > MAX_NAME_LEN {
        return Err(ErrorCode::FieldTooLong);
    }
    if event_description.as_str().unicode_len() > MAX_DESCRIPTION_LEN {
        return Err(ErrorCode::FieldTooLong);
    }
    Ok(
        Event {
            creator: ctx.creator,
            event_name,
            event_description,
            token_supply,
            tokens_claimed: 0,
            is_active: true,
            created_at: now,
        },
    )
}

/// Claim one unit. On an active record with supply remaining the claim
/// counter rises by exactly one — every other field untouched — and the
/// updated count is returned; an inactive record rejects with
/// `EventInactive`, an exhausted one with `NoTokensLeft`, in that order of
/// checking, and a rejected request leaves the record unchanged. The claimer
/// identity in `ctx` is not inspected: any identity, including a repeated
/// one, may claim while supply remains.
pub fn claim_token(event: &mut Event, ctx: &ClaimToken) -> (r: Result<u64, ErrorCode>)
    requires
        old(event)@.wf(),
    ensures
        final(event)@.wf(),
        (r, final(event)@) == spec_claim(old(event)@),
        r is Ok <==> old(event)@.is_active && old(event)@.tokens_claimed < old(
            event,
        )@.token_supply,
        r is Err ==> final(event)@ == old(event)@,
        final(event)@.tokens_claimed >= old(event)@.tokens_claimed,
        final(event)@.is_active == old(event)@.is_active,
        final(event)@.creator == old(event)@.creator,
{
    if !event.is_active {
        return Err(ErrorCode::EventInactive);
    }
    if event.tokens_claimed >= event.token_supply {
        return Err(ErrorCode::NoTokensLeft);
    }
    event.tokens_claimed = event.tokens_claimed + 1;
    Ok(event.tokens_claimed)
}

/// Close the event. Only the record's creator may deactivate it; any other
/// identity is rejected with `Unauthorized` and the record is unchanged. For
/// the creator the call always succeeds and sets the activity gate to false —
/// idempotently, a repeated call re-applies the same value — touching no
/// other field.
pub fn deactivate_event(event: &mut Event, ctx: &DeactivateEvent) -> (r: Result<(), ErrorCode>)
    requires
        old(event)@.wf(),
    ensures
        final(event)@.wf(),
        (r, final(event)@) == spec_deactivate(old(event)@, ctx.creator),
        r is Ok <==> ctx.creator == old(event)@.creator,
        r is Err ==> final(event)@ == old(event)@,
        !final(event)@.is_active || old(event)@.is_active,
        final(event)@.creator == old(event)@.creator,
        final(event)@.tokens_claimed == old(event)@.tokens_claimed,
{
    if !(ctx.creator == event.creator) {
        return Err(ErrorCode::Unauthorized);
    }
    event.is_active = false;
    Ok(())
}

} // verus!
