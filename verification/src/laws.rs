//! Laws of the event state machine, proved over the mathematical model: what
//! holds across whole sequences of claim transitions, and how deactivation
//! interacts with them.

use crate::record::ErrorCode;
use crate::record::EventModel;
use crate::record::Pubkey;
use crate::transitions::spec_claim;
use crate::transitions::spec_deactivate;
use vstd::math::min;
use vstd::prelude::*;

verus! {

/// The record and the result sequence that `n` consecutive claim transitions
/// produce from `m`: the serialization of `n` claim requests that the host
/// imposes on one record.
pub open spec fn run_claims(m: EventModel, n: nat) -> (EventModel, Seq<Result<u64, ErrorCode>>)
    decreases n,
{
    if n == 0 {
        (m, Seq::empty())
    } else {
        let step = spec_claim(m);
        let rest = run_claims(step.1, (n - 1) as nat);
        (rest.0, seq![step.0] + rest.1)
    }
}

/// How many of a sequence of claim results succeeded.
pub open spec fn count_ok(rs: Seq<Result<u64, ErrorCode>>) -> int
    decreases rs.len(),
{
    if rs.len() == 0 {
        0
    } else {
        (if rs[0] is Ok {
            1int
        } else {
            0int
        }) + count_ok(rs.drop_first())
    }
}

/// A run of `n` claims reports exactly `n` results, one per request.
pub proof fn lemma_run_claims_len(m: EventModel, n: nat)
    ensures
        run_claims(m, n).1.len() == n,
    decreases n,
{
    if n > 0 {
        lemma_run_claims_len(spec_claim(m).1, (n - 1) as nat);
    }
}

/// Running claims in two stages reaches the same record as running them in
/// one: the record after `a + b` claims is the record after `b` claims on the
/// record after `a`.
pub proof fn lemma_run_claims_split(m: EventModel, a: nat, b: nat)
    ensures
        run_claims(m, a + b).0 == run_claims(run_claims(m, a).0, b).0,
    decreases a,
{
    if a > 0 {
        lemma_run_claims_split(spec_claim(m).1, (a - 1) as nat, b);
    }
}

/// Any number of claim transitions preserves the record invariant, never
/// lowers the claim counter, never pushes it past the supply, and touches no
/// field but the counter.
pub proof fn lemma_claims_preserve_invariant(m: EventModel, n: nat)
    requires
        m.wf(),
    ensures
        run_claims(m, n).0.wf(),
        run_claims(m, n).0.tokens_claimed >= m.tokens_claimed,
        run_claims(m, n).0.tokens_claimed <= m.token_supply,
        run_claims(m, n).0 == (EventModel {
            tokens_claimed: run_claims(m, n).0.tokens_claimed,
            ..m
        }),
    decreases n,
{
    if n > 0 {
        lemma_claims_preserve_invariant(spec_claim(m).1, (n - 1) as nat);
    }
}

/// Over any sequence of claim transitions on one record, `tokens_claimed`
/// never decreases and never exceeds `token_supply`: at any two points of the
/// run, the earlier count is at most the later one, and every count stays
/// within the supply.
pub proof fn lemma_claim_counter_monotone(m: EventModel, i: nat, j: nat)
    requires
        m.wf(),
        i <= j,
    ensures
        run_claims(m, i).0.tokens_claimed <= run_claims(m, j).0.tokens_claimed,
        run_claims(m, j).0.tokens_claimed <= m.token_supply,
{
    lemma_claims_preserve_invariant(m, i);
    lemma_claims_preserve_invariant(run_claims(m, i).0, (j - i) as nat);
    lemma_run_claims_split(m, i, (j - i) as nat);
}

/// On an inactive record every claim fails with `EventInactive` and nothing
/// is ever written: however many claims follow, the record stays as it was.
pub proof fn lemma_inactive_claims_fail(m: EventModel, n: nat)
    requires
        !m.is_active,
    ensures
        run_claims(m, n).0 == m,
        forall|i: int|
            0 <= i < n ==> run_claims(m, n).1[i] == Err::<u64, ErrorCode>(ErrorCode::EventInactive),
    decreases n,
{
    if n > 0 {
        lemma_inactive_claims_fail(m, (n - 1) as nat);
        lemma_run_claims_len(m, (n - 1) as nat);
        assert(run_claims(m, n).1 == seq![spec_claim(m).0] + run_claims(m, (n - 1) as nat).1);
        assert forall|i: int| 0 <= i < n implies run_claims(m, n).1[i] == Err::<u64, ErrorCode>(
            ErrorCode::EventInactive,
        ) by {
            if i > 0 {
                assert(run_claims(m, n).1[i] == run_claims(m, (n - 1) as nat).1[i - 1]);
            }
        }
    }
}

/// Once a deactivation succeeds, every subsequent claim on that record fails
/// with `EventInactive`, regardless of remaining supply, and the record never
/// changes again under claims.
pub proof fn lemma_deactivate_disables_claims(m: EventModel, caller: Pubkey, n: nat)
    requires
        spec_deactivate(m, caller).0 is Ok,
    ensures
        run_claims(spec_deactivate(m, caller).1, n).0 == spec_deactivate(m, caller).1,
        forall|i: int|
            0 <= i < n ==> run_claims(spec_deactivate(m, caller).1, n).1[i] == Err::<
                u64,
                ErrorCode,
            >(ErrorCode::EventInactive),
{
    lemma_inactive_claims_fail(spec_deactivate(m, caller).1, n);
}

/// Deactivation by the creator is idempotent: it always succeeds, and a
/// second call leaves the record exactly as the first one did.
pub proof fn lemma_deactivate_idempotent(m: EventModel, caller: Pubkey)
    requires
        caller == m.creator,
    ensures
        spec_deactivate(m, caller).0 is Ok,
        spec_deactivate(spec_deactivate(m, caller).1, caller).0 is Ok,
        spec_deactivate(spec_deactivate(m, caller).1, caller).1 == spec_deactivate(m, caller).1,
{
    assert(spec_deactivate(spec_deactivate(m, caller).1, caller).1 =~= spec_deactivate(
        m,
        caller,
    ).1);
}

/// On an active record, `n` claims succeed one by one until the supply runs
/// out: the counter reaches the lesser of `tokens_claimed + n` and the
/// supply, exactly that many new claims report success, and every rejected
/// claim fails with `NoTokensLeft`.
pub proof fn lemma_claims_exhaust_supply(m: EventModel, n: nat)
    requires
        m.wf(),
        m.is_active,
    ensures
        run_claims(m, n).0.tokens_claimed == min(m.tokens_claimed + n, m.token_supply as int),
        count_ok(run_claims(m, n).1) == min(m.tokens_claimed + n, m.token_supply as int)
            - m.tokens_claimed,
        forall|i: int|
            0 <= i < n ==> (run_claims(m, n).1[i] is Ok || run_claims(m, n).1[i] == Err::<
                u64,
                ErrorCode,
            >(ErrorCode::NoTokensLeft)),
    decreases n,
{
    if n > 0 {
        let step = spec_claim(m);
        lemma_claims_exhaust_supply(step.1, (n - 1) as nat);
        lemma_run_claims_len(step.1, (n - 1) as nat);
        assert(run_claims(m, n).1 == seq![step.0] + run_claims(step.1, (n - 1) as nat).1);
        assert(run_claims(m, n).1.drop_first() == run_claims(step.1, (n - 1) as nat).1);
        assert forall|i: int| 0 <= i < n implies (run_claims(m, n).1[i] is Ok || run_claims(
            m,
            n,
        ).1[i] == Err::<u64, ErrorCode>(ErrorCode::NoTokensLeft)) by {
            if i > 0 {
                assert(run_claims(m, n).1[i] == run_claims(step.1, (n - 1) as nat).1[i - 1]);
            }
        }
    }
}

/// The serialization property for concurrent claims: when `n` claim requests
/// race against a fresh active record whose supply `S` is at most `n`, the
/// host serializes them into some order, and in every such order exactly `S`
/// requests succeed, the remaining `n - S` fail with `NoTokensLeft`, and the
/// counter ends at `S` without ever exceeding it.
pub proof fn lemma_concurrent_claims_exact(m: EventModel, n: nat)
    requires
        m.wf(),
        m.is_active,
        m.tokens_claimed == 0,
        n >= m.token_supply,
    ensures
        run_claims(m, n).1.len() == n,
        count_ok(run_claims(m, n).1) == m.token_supply,
        run_claims(m, n).0.tokens_claimed == m.token_supply,
        forall|i: int|
            0 <= i < n ==> (run_claims(m, n).1[i] is Ok || run_claims(m, n).1[i] == Err::<
                u64,
                ErrorCode,
            >(ErrorCode::NoTokensLeft)),
        forall|k: nat| k <= n ==> run_claims(m, k).0.tokens_claimed <= m.token_supply,
{
    lemma_run_claims_len(m, n);
    lemma_claims_exhaust_supply(m, n);
    assert forall|k: nat| k <= n implies run_claims(m, k).0.tokens_claimed <= m.token_supply by {
        lemma_claims_preserve_invariant(m, k);
    }
}

} // verus!
