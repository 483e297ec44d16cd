use cpop_program::claim_token;
use cpop_program::deactivate_event;
use cpop_program::initialize_event;
use cpop_program::ClaimToken;
use cpop_program::DeactivateEvent;
use cpop_program::ErrorCode;
use cpop_program::Event;
use cpop_program::InitializeEvent;
use cpop_program::Pubkey;

fn pk(n: u64) -> Pubkey {
    Pubkey { w0: n, w1: 0, w2: 0, w3: 0 }
}

fn fresh_event(creator: Pubkey, supply: u64) -> Event {
    initialize_event(
        &InitializeEvent { creator, slot_allocated: true },
        String::from("Conf2024"),
        String::from("Annual conference token drop"),
        supply,
        1_700_000_000,
    )
    .expect("initialization with short fields must succeed")
}

#[test]
fn initialize_sets_fresh_record() {
    let c = pk(7);
    let event = initialize_event(
        &InitializeEvent { creator: c, slot_allocated: true },
        String::from("Conf2024"),
        String::from("desc"),
        2,
        1_700_000_000,
    )
    .expect("must succeed");
    assert_eq!(event.creator, c);
    assert_eq!(event.event_name, "Conf2024");
    assert_eq!(event.event_description, "desc");
    assert_eq!(event.token_supply, 2);
    assert_eq!(event.tokens_claimed, 0);
    assert!(event.is_active);
    assert_eq!(event.created_at, 1_700_000_000);
}

#[test]
fn initialize_zero_supply_starts_exhausted() {
    let event = fresh_event(pk(1), 0);
    assert_eq!(event.tokens_claimed, 0);
    assert_eq!(event.token_supply, 0);
    assert!(event.is_active);
}

#[test]
fn initialize_name_at_budget_succeeds() {
    let r = initialize_event(
        &InitializeEvent { creator: pk(1), slot_allocated: true },
        "n".repeat(100),
        String::from("desc"),
        1,
        0,
    );
    assert!(r.is_ok());
}

#[test]
fn initialize_rejects_long_name() {
    let r = initialize_event(
        &InitializeEvent { creator: pk(1), slot_allocated: true },
        "n".repeat(101),
        String::from("desc"),
        1,
        0,
    );
    assert_eq!(r.err(), Some(ErrorCode::FieldTooLong));
}

#[test]
fn initialize_description_at_budget_succeeds() {
    let r = initialize_event(
        &InitializeEvent { creator: pk(1), slot_allocated: true },
        String::from("name"),
        "d".repeat(500),
        1,
        0,
    );
    assert!(r.is_ok());
}

#[test]
fn initialize_rejects_long_description() {
    let r = initialize_event(
        &InitializeEvent { creator: pk(1), slot_allocated: true },
        String::from("name"),
        "d".repeat(501),
        1,
        0,
    );
    assert_eq!(r.err(), Some(ErrorCode::FieldTooLong));
}

#[test]
fn initialize_reports_allocation_failure() {
    let r = initialize_event(
        &InitializeEvent { creator: pk(1), slot_allocated: false },
        String::from("name"),
        String::from("desc"),
        1,
        0,
    );
    assert_eq!(r.err(), Some(ErrorCode::AllocationFailed));
}

#[test]
fn allocation_failure_is_reported_before_field_budgets() {
    let r = initialize_event(
        &InitializeEvent { creator: pk(1), slot_allocated: false },
        "n".repeat(101),
        String::from("desc"),
        1,
        0,
    );
    assert_eq!(r.err(), Some(ErrorCode::AllocationFailed));
}

#[test]
fn scenario_supply_of_two_serves_exactly_two_claims() {
    let mut event = fresh_event(pk(3), 2);
    assert_eq!(claim_token(&mut event, &ClaimToken { claimer: pk(10) }), Ok(1));
    assert_eq!(claim_token(&mut event, &ClaimToken { claimer: pk(11) }), Ok(2));
    assert_eq!(
        claim_token(&mut event, &ClaimToken { claimer: pk(12) }),
        Err(ErrorCode::NoTokensLeft)
    );
    assert_eq!(event.tokens_claimed, 2);
}

#[test]
fn scenario_zero_supply_rejects_first_claim() {
    let mut event = fresh_event(pk(3), 0);
    assert_eq!(
        claim_token(&mut event, &ClaimToken { claimer: pk(10) }),
        Err(ErrorCode::NoTokensLeft)
    );
    assert_eq!(event.tokens_claimed, 0);
}

#[test]
fn scenario_deactivation_gates_and_closes() {
    let c = pk(3);
    let d = pk(4);
    let mut event = fresh_event(c, 5);
    assert_eq!(
        deactivate_event(&mut event, &DeactivateEvent { creator: d }),
        Err(ErrorCode::Unauthorized)
    );
    assert!(event.is_active);
    assert_eq!(deactivate_event(&mut event, &DeactivateEvent { creator: c }), Ok(()));
    assert!(!event.is_active);
    assert_eq!(
        claim_token(&mut event, &ClaimToken { claimer: pk(10) }),
        Err(ErrorCode::EventInactive)
    );
}

#[test]
fn unauthorized_deactivation_leaves_record_unchanged() {
    let c = pk(3);
    let mut event = fresh_event(c, 5);
    claim_token(&mut event, &ClaimToken { claimer: pk(10) }).expect("supply remains");
    let r = deactivate_event(&mut event, &DeactivateEvent { creator: pk(4) });
    assert_eq!(r, Err(ErrorCode::Unauthorized));
    assert_eq!(event.creator, c);
    assert_eq!(event.event_name, "Conf2024");
    assert_eq!(event.event_description, "Annual conference token drop");
    assert_eq!(event.token_supply, 5);
    assert_eq!(event.tokens_claimed, 1);
    assert!(event.is_active);
    assert_eq!(event.created_at, 1_700_000_000);
}

#[test]
fn deactivation_is_idempotent() {
    let c = pk(3);
    let mut event = fresh_event(c, 5);
    assert_eq!(deactivate_event(&mut event, &DeactivateEvent { creator: c }), Ok(()));
    assert!(!event.is_active);
    let claimed_after_first: u64 = event.tokens_claimed;
    assert_eq!(deactivate_event(&mut event, &DeactivateEvent { creator: c }), Ok(()));
    assert!(!event.is_active);
    assert_eq!(event.tokens_claimed, claimed_after_first);
    assert_eq!(event.creator, c);
    assert_eq!(event.token_supply, 5);
}

#[test]
fn deactivated_record_rejects_claims_with_supply_left() {
    let c = pk(3);
    let mut event = fresh_event(c, 5);
    deactivate_event(&mut event, &DeactivateEvent { creator: c }).expect("creator may close");
    for i in 0u64..3 {
        let claimer = pk(20 + i);
        assert_eq!(
            claim_token(&mut event, &ClaimToken { claimer }),
            Err(ErrorCode::EventInactive)
        );
    }
    assert_eq!(event.tokens_claimed, 0);
}

#[test]
fn claim_counter_is_monotone_and_bounded() {
    let mut event = fresh_event(pk(3), 3);
    let mut last: u64 = 0;
    for i in 0u64..6 {
        let _ = claim_token(&mut event, &ClaimToken { claimer: pk(30 + i) });
        assert!(event.tokens_claimed >= last);
        assert!(event.tokens_claimed <= event.token_supply);
        last = event.tokens_claimed;
    }
    assert_eq!(event.tokens_claimed, 3);
}

#[test]
fn serialized_claims_succeed_exactly_supply_times() {
    let mut event = fresh_event(pk(3), 2);
    let mut ok_count: usize = 0;
    let mut no_tokens_count: usize = 0;
    for i in 0u64..5 {
        match claim_token(&mut event, &ClaimToken { claimer: pk(40 + i) }) {
            Ok(_) => ok_count += 1,
            Err(ErrorCode::NoTokensLeft) => no_tokens_count += 1,
            Err(other) => panic!("unexpected error: {:?}", other),
        }
        assert!(event.tokens_claimed <= event.token_supply);
    }
    assert_eq!(ok_count, 2);
    assert_eq!(no_tokens_count, 3);
    assert_eq!(event.tokens_claimed, 2);
}

#[test]
fn claim_returns_the_updated_count() {
    let mut event = fresh_event(pk(3), 3);
    assert_eq!(claim_token(&mut event, &ClaimToken { claimer: pk(9) }), Ok(1));
    assert_eq!(event.tokens_claimed, 1);
    assert_eq!(claim_token(&mut event, &ClaimToken { claimer: pk(9) }), Ok(2));
    assert_eq!(event.tokens_claimed, 2);
}

#[test]
fn same_identity_may_claim_repeatedly() {
    let mut event = fresh_event(pk(3), 2);
    let claimer = pk(9);
    assert_eq!(claim_token(&mut event, &ClaimToken { claimer }), Ok(1));
    assert_eq!(claim_token(&mut event, &ClaimToken { claimer }), Ok(2));
}

#[test]
fn claim_near_maximal_supply_does_not_overflow() {
    let mut event = fresh_event(pk(3), u64::MAX);
    assert_eq!(claim_token(&mut event, &ClaimToken { claimer: pk(9) }), Ok(1));
}

#[test]
fn identities_compare_by_all_words() {
    let a = Pubkey { w0: 1, w1: 2, w2: 3, w3: 4 };
    let b = Pubkey { w0: 1, w1: 2, w2: 3, w3: 5 };
    let mut event = initialize_event(
        &InitializeEvent { creator: a, slot_allocated: true },
        String::from("n"),
        String::from("d"),
        1,
        0,
    )
    .expect("must succeed");
    assert_eq!(
        deactivate_event(&mut event, &DeactivateEvent { creator: b }),
        Err(ErrorCode::Unauthorized)
    );
    assert_eq!(deactivate_event(&mut event, &DeactivateEvent { creator: a }), Ok(()));
}

#[test]
fn record_layout_reserves_every_field() {
    assert_eq!(Event::LEN, 8 + 32 + 4 + 100 + 4 + 500 + 8 + 8 + 1 + 8);
}
