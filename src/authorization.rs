//! Proof that a payload was authorized by its claimed payer, and checks of
//! what the chain reports about its nonce and the payer's balance.
use vstd::prelude::*;
use crate::eip712::{recover_signer, recovered_signer, signing_digest, transfer_digest};
use crate::error::VerificationError;
use crate::types::{PaymentPayload, PaymentRequirements, TokenAmount};

verus! {

/// What the chain reported, just before the decision, about the payment's
/// authorization nonce and the payer's token balance.
#[derive(Clone, Copy, Debug, PartialEq, Eq, Structural)]
pub struct ChainObservation {
    pub nonce_used: bool,
    pub balance: TokenAmount,
}

/// The signature check: the requirements must name the token's EIP-712
/// domain, and the signature over the authorization's digest in that domain
/// on chain `chain_id` must recover to the claimed payer.
pub open spec fn signature_verdict(p: PaymentPayload, r: PaymentRequirements, chain_id: u64) -> Result<
    (),
    VerificationError,
> {
    match r.extra {
        None => Err(VerificationError::MissingTokenDomain),
        Some(d) => {
            let digest = signing_digest(p.authorization, d.name@, d.version@, chain_id, r.asset@);
            if recovered_signer(digest, p.signature@) == Some(p.authorization.from@) {
                Ok(())
            } else {
                Err(VerificationError::InvalidSignature)
            }
        },
    }
}

/// Checks that the payload's signature recovers to its claimed payer.
pub fn verify_signature(
    payload: &PaymentPayload,
    requirements: &PaymentRequirements,
    chain_id: u64,
) -> (r: Result<(), VerificationError>)
    ensures
        r == signature_verdict(*payload, *requirements, chain_id),
{
    let domain = match &requirements.extra {
        None => {
            return Err(VerificationError::MissingTokenDomain);
        },
        Some(d) => d,
    };
    let digest = transfer_digest(&payload.authorization, domain, chain_id, &requirements.asset);
    match recover_signer(&digest, &payload.signature) {
        Some(signer) => {
            if signer.same_as(&payload.authorization.from) {
                Ok(())
            } else {
                Err(VerificationError::InvalidSignature)
            }
        },
        None => Err(VerificationError::InvalidSignature),
    }
}

/// The chain-state check: the nonce must be unused on chain, and the
/// payer's balance must cover the authorized value.
pub open spec fn chain_state_verdict(p: PaymentPayload, o: ChainObservation) -> Result<
    (),
    VerificationError,
> {
    if o.nonce_used {
        Err(VerificationError::NonceAlreadyUsed)
    } else if o.balance.value() < p.authorization.value.value() {
        Err(VerificationError::InsufficientFunds)
    } else {
        Ok(())
    }
}

/// Checks the chain's report on the payload's nonce and payer balance.
pub fn check_chain_state(payload: &PaymentPayload, observed: &ChainObservation) -> (r: Result<
    (),
    VerificationError,
>)
    ensures
        r == chain_state_verdict(*payload, *observed),
{
    if observed.nonce_used {
        Err(VerificationError::NonceAlreadyUsed)
    } else if observed.balance.less_than(&payload.authorization.value) {
        Err(VerificationError::InsufficientFunds)
    } else {
        Ok(())
    }
}

} // verus!
