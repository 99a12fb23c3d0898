//! Pure checks of a payload against the seller's requirements.
use vstd::prelude::*;
use crate::error::VerificationError;
use crate::types::{PaymentPayload, PaymentRequirements};

verus! {

/// How many seconds early an authorization window may be entered, to absorb
/// clock differences between payer, facilitator and chain.
pub const CLOCK_SKEW_SECONDS: u64 = 6;

/// The first second at which both the authorization and the requirements
/// allow payment.
pub open spec fn window_start(p: PaymentPayload, r: PaymentRequirements) -> u64 {
    if p.authorization.valid_after >= r.valid_after {
        p.authorization.valid_after
    } else {
        r.valid_after
    }
}

/// The second from which the authorization or the requirements no longer
/// allow payment.
pub open spec fn window_end(p: PaymentPayload, r: PaymentRequirements) -> u64 {
    if p.authorization.valid_before <= r.valid_before {
        p.authorization.valid_before
    } else {
        r.valid_before
    }
}

/// The outcome of matching: each check in turn, stopping at the first one
/// that fails. Under the exact scheme the authorized value must equal the
/// required amount.
pub open spec fn match_verdict(p: PaymentPayload, r: PaymentRequirements, now: u64) -> Result<
    (),
    VerificationError,
> {
    if !(p.scheme@ == r.scheme@ && p.network@ == r.network@) {
        Err(VerificationError::SchemeNetworkMismatch)
    } else if p.asset@ != r.asset@ {
        Err(VerificationError::AssetMismatch)
    } else if p.authorization.value.value() != r.max_amount_required.value() {
        Err(VerificationError::AmountMismatch)
    } else if p.authorization.to@ != r.pay_to@ {
        Err(VerificationError::RecipientMismatch)
    } else if now >= window_end(p, r) {
        Err(VerificationError::Expired)
    } else if window_start(p, r) > now + CLOCK_SKEW_SECONDS {
        Err(VerificationError::NotYetValid)
    } else {
        Ok(())
    }
}

/// Checks `payload` against `requirements` at time `now` (Unix seconds).
pub fn match_requirements(
    payload: &PaymentPayload,
    requirements: &PaymentRequirements,
    now: u64,
) -> (r: Result<(), VerificationError>)
    ensures
        r == match_verdict(*payload, *requirements, now),
{
    if !(payload.scheme == requirements.scheme && payload.network == requirements.network) {
        return Err(VerificationError::SchemeNetworkMismatch);
    }
    if !payload.asset.same_as(&requirements.asset) {
        return Err(VerificationError::AssetMismatch);
    }
    let auth = &payload.authorization;
    if !auth.value.equals(&requirements.max_amount_required) {
        return Err(VerificationError::AmountMismatch);
    }
    if !auth.to.same_as(&requirements.pay_to) {
        return Err(VerificationError::RecipientMismatch);
    }
    let end = if auth.valid_before <= requirements.valid_before {
        auth.valid_before
    } else {
        requirements.valid_before
    };
    if now >= end {
        return Err(VerificationError::Expired);
    }
    let start = if auth.valid_after >= requirements.valid_after {
        auth.valid_after
    } else {
        requirements.valid_after
    };
    if start > now && start - now > CLOCK_SKEW_SECONDS {
        return Err(VerificationError::NotYetValid);
    }
    Ok(())
}

/// The matcher is a function of its inputs: equal inputs give equal
/// verdicts, however often it is asked.
pub proof fn lemma_matcher_deterministic(
    pay_a: PaymentPayload,
    req_a: PaymentRequirements,
    now_a: u64,
    pay_b: PaymentPayload,
    req_b: PaymentRequirements,
    now_b: u64,
)
    requires
        pay_a == pay_b,
        req_a == req_b,
        now_a == now_b,
    ensures
        match_verdict(pay_a, req_a, now_a) == match_verdict(pay_b, req_b, now_b),
{
}

/// Where scheme, network and asset match: an authorization for exactly the
/// required amount gets past the amount check (and passes when recipient and
/// window are right), and one for one unit less fails with `AmountMismatch`.
pub proof fn lemma_amount_boundary(p: PaymentPayload, r: PaymentRequirements, now: u64)
    requires
        p.scheme@ == r.scheme@,
        p.network@ == r.network@,
        p.asset@ == r.asset@,
    ensures
        p.authorization.value.value() == r.max_amount_required.value() ==> match_verdict(p, r, now)
            != Err::<(), _>(VerificationError::AmountMismatch),
        p.authorization.value.value() == r.max_amount_required.value() && p.authorization.to@
            == r.pay_to@ && now < window_end(p, r) && window_start(p, r) <= now
            + CLOCK_SKEW_SECONDS ==> match_verdict(p, r, now) is Ok,
        p.authorization.value.value() + 1 == r.max_amount_required.value() ==> match_verdict(
            p,
            r,
            now,
        ) == Err::<(), _>(VerificationError::AmountMismatch),
{
}

/// Where every other check passes and the window has opened by one second
/// before its end: a payment one second before the end passes, and one
/// second after it fails with `Expired`.
pub proof fn lemma_time_window_boundary(p: PaymentPayload, r: PaymentRequirements)
    requires
        p.scheme@ == r.scheme@,
        p.network@ == r.network@,
        p.asset@ == r.asset@,
        p.authorization.value.value() == r.max_amount_required.value(),
        p.authorization.to@ == r.pay_to@,
        1 <= window_end(p, r) < u64::MAX,
        window_start(p, r) <= window_end(p, r) - 1,
    ensures
        match_verdict(p, r, (window_end(p, r) - 1) as u64) is Ok,
        match_verdict(p, r, (window_end(p, r) + 1) as u64) == Err::<(), _>(
            VerificationError::Expired,
        ),
{
}

} // verus!
