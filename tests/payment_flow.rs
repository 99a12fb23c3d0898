use k256::ecdsa::SigningKey;
use sha3::{Digest, Keccak256};
use x402_facilitator::authorization::ChainObservation;
use x402_facilitator::eip712::{recover_signer, split_signature, transfer_digest};
use x402_facilitator::engine::{advance, chain_query, ChainEvent, Facilitator, SettlementState};
use x402_facilitator::error::{ErrorReason, FacilitatorError, OnchainError, SchemeError, VerificationError};
use x402_facilitator::matcher::match_requirements;
use x402_facilitator::registry::{SchemeHandler, SchemeKind, SchemeRegistry};
use x402_facilitator::types::{
    Address, ExactAuthorization, Nonce, PaymentPayload, PaymentRequirements, TokenAmount,
    TokenDomain, TxHash, VerifyRequest,
};

const T: u64 = 1_700_000_000;
const BASE_SEPOLIA_CHAIN_ID: u64 = 84532;

fn usdc() -> Address {
    Address { bytes: [0x03; 20] }
}

fn seller() -> Address {
    Address { bytes: [0xAA; 20] }
}

fn payer_key() -> SigningKey {
    SigningKey::from_slice(&[0x11; 32]).unwrap()
}

fn address_of(key: &SigningKey) -> Address {
    let point = key.verifying_key().to_encoded_point(false);
    let hash = Keccak256::digest(&point.as_bytes()[1..]);
    let mut bytes = [0u8; 20];
    bytes.copy_from_slice(&hash[12..32]);
    Address { bytes }
}

fn requirements() -> PaymentRequirements {
    PaymentRequirements {
        scheme: "exact".to_string(),
        network: "base-sepolia".to_string(),
        asset: usdc(),
        pay_to: seller(),
        max_amount_required: TokenAmount::from_u128(1_000_000),
        valid_after: 0,
        valid_before: T + 300,
        extra: Some(TokenDomain { name: "USDC".to_string(), version: "2".to_string() }),
    }
}

fn registry() -> SchemeRegistry {
    let mut reg = SchemeRegistry::new();
    let added = reg.register(SchemeHandler {
        scheme: "exact".to_string(),
        network: "base-sepolia".to_string(),
        chain_id: BASE_SEPOLIA_CHAIN_ID,
        kind: SchemeKind::ExactEvm,
    });
    assert!(added);
    reg
}

fn signed_request(key: &SigningKey, value: u128, nonce: u8, v_offset: u8) -> VerifyRequest {
    let reqs = requirements();
    let authorization = ExactAuthorization {
        from: address_of(&payer_key()),
        to: seller(),
        value: TokenAmount::from_u128(value),
        valid_after: 0,
        valid_before: T + 300,
        nonce: Nonce { bytes: [nonce; 32] },
    };
    let digest = transfer_digest(
        &authorization,
        reqs.extra.as_ref().unwrap(),
        BASE_SEPOLIA_CHAIN_ID,
        &reqs.asset,
    );
    let (sig, id) = key.sign_prehash_recoverable(&digest).unwrap();
    let mut signature = sig.to_bytes().to_vec();
    signature.push(id.to_byte() + v_offset);
    VerifyRequest {
        payment_payload: PaymentPayload {
            scheme: "exact".to_string(),
            network: "base-sepolia".to_string(),
            asset: usdc(),
            authorization,
            signature,
        },
        payment_requirements: reqs,
    }
}

fn rich() -> Option<Result<ChainObservation, String>> {
    Some(Ok(ChainObservation { nonce_used: false, balance: TokenAmount::from_u128(5_000_000) }))
}

fn invalid_reason(f: &Facilitator, req: &VerifyRequest, now: u64) -> Option<ErrorReason> {
    let resp = f.verify(req, now, &rich()).unwrap();
    assert_eq!(resp.is_valid, resp.invalid_reason.is_none());
    resp.invalid_reason
}

#[test]
fn scenario_exact_payment_verifies_and_settles() {
    let mut f = Facilitator::new(registry());
    let req = signed_request(&payer_key(), 1_000_000, 7, 27);
    let resp = f.verify(&req, T, &rich()).unwrap();
    assert!(resp.is_valid);
    assert_eq!(resp.status_code(), 200);
    assert_eq!(resp.invalid_reason, None);
    assert_eq!(resp.invalid_reason_details, "");
    assert_eq!(resp.payer, address_of(&payer_key()));

    let state = f.begin_settlement(&req, T, &rich());
    let pending = match &state {
        SettlementState::Submitting(p) => p.clone(),
        other => panic!("unexpected state {:?}", other),
    };
    assert_eq!(pending.network, "base-sepolia");
    assert_eq!(pending.chain_id, BASE_SEPOLIA_CHAIN_ID);
    assert_eq!(pending.asset, usdc());
    assert_eq!(pending.authorization, req.payment_payload.authorization);
    assert_eq!(pending.v, req.payment_payload.signature[64]);
    assert_eq!(&pending.rs[..], &req.payment_payload.signature[..64]);

    let tx = TxHash { bytes: [0x5e; 32] };
    let state = advance(state, ChainEvent::Broadcast(tx));
    assert!(matches!(state, SettlementState::AwaitingReceipt(_, t) if t == tx));
    match advance(state, ChainEvent::Confirmed) {
        SettlementState::Settled(r) => {
            assert!(r.success);
            assert_eq!(r.network, "base-sepolia");
            assert_eq!(r.transaction, tx);
            assert_eq!(r.payer, address_of(&payer_key()));
        }
        other => panic!("unexpected state {:?}", other),
    }
}

#[test]
fn scenario_short_value_is_amount_mismatch() {
    let f = Facilitator::new(registry());
    let req = signed_request(&payer_key(), 999_999, 7, 27);
    let resp = f.verify(&req, T, &rich()).unwrap();
    assert!(!resp.is_valid);
    assert_eq!(resp.status_code(), 400);
    assert_eq!(resp.invalid_reason, Some(ErrorReason::AmountMismatch));
    assert_eq!(resp.invalid_reason_details, "authorized value differs from the required amount");
    assert_eq!(resp.payer, address_of(&payer_key()));
    assert_eq!(resp.invalid_reason.unwrap().name(), "AmountMismatch");
}

#[test]
fn verified_request_passes_settlement_checks() {
    let mut f = Facilitator::new(registry());
    let req = signed_request(&payer_key(), 1_000_000, 9, 27);
    assert!(f.verify(&req, T + 10, &rich()).unwrap().is_valid);
    assert!(matches!(f.begin_settlement(&req, T + 10, &rich()), SettlementState::Submitting(_)));
}

#[test]
fn replayed_nonce_is_rejected() {
    let mut f = Facilitator::new(registry());
    let req = signed_request(&payer_key(), 1_000_000, 3, 27);
    assert!(matches!(f.begin_settlement(&req, T, &rich()), SettlementState::Submitting(_)));
    match f.begin_settlement(&req, T, &rich()) {
        SettlementState::Failed(FacilitatorError::Settlement(SchemeError::PaymentVerification(e))) => {
            assert_eq!(e, VerificationError::NonceAlreadyUsed)
        }
        other => panic!("unexpected state {:?}", other),
    }
    assert_eq!(invalid_reason(&f, &req, T), Some(ErrorReason::NonceAlreadyUsed));
    let other_nonce = signed_request(&payer_key(), 1_000_000, 4, 27);
    assert!(matches!(f.begin_settlement(&other_nonce, T, &rich()), SettlementState::Submitting(_)));
}

#[test]
fn nonce_used_on_chain_is_rejected() {
    let f = Facilitator::new(registry());
    let req = signed_request(&payer_key(), 1_000_000, 3, 27);
    let seen = Some(Ok(ChainObservation { nonce_used: true, balance: TokenAmount::from_u128(5_000_000) }));
    let resp = f.verify(&req, T, &seen).unwrap();
    assert_eq!(resp.invalid_reason, Some(ErrorReason::NonceAlreadyUsed));
}

#[test]
fn low_balance_is_insufficient_funds() {
    let f = Facilitator::new(registry());
    let req = signed_request(&payer_key(), 1_000_000, 3, 27);
    let poor = Some(Ok(ChainObservation { nonce_used: false, balance: TokenAmount::from_u128(999_999) }));
    assert_eq!(f.verify(&req, T, &poor).unwrap().invalid_reason, Some(ErrorReason::InsufficientFunds));
    let exact = Some(Ok(ChainObservation { nonce_used: false, balance: TokenAmount::from_u128(1_000_000) }));
    assert!(f.verify(&req, T, &exact).unwrap().is_valid);
}

#[test]
fn unreadable_chain_is_an_onchain_failure() {
    let f = Facilitator::new(registry());
    let req = signed_request(&payer_key(), 1_000_000, 3, 27);
    let err = f.verify(&req, T, &Some(Err("rpc down".to_string()))).unwrap_err();
    let response = err.error_response();
    assert_eq!(response.status, 500);
    match err {
        FacilitatorError::Verification(SchemeError::OnchainFailure(OnchainError::ReadFailed(m))) => {
            assert_eq!(m, "rpc down")
        }
        other => panic!("unexpected error {:?}", other),
    }
}

#[test]
fn unsupported_combination_is_rejected() {
    let mut f = Facilitator::new(registry());
    let mut req = signed_request(&payer_key(), 1_000_000, 3, 27);
    req.payment_requirements.network = "base".to_string();
    req.payment_payload.network = "base".to_string();
    assert_eq!(invalid_reason(&f, &req, T), Some(ErrorReason::UnsupportedSchemeNetwork));
    match f.begin_settlement(&req, T, &rich()) {
        SettlementState::Failed(e) => {
            let response = e.error_response();
            assert_eq!(response.status, 400);
        }
        other => panic!("unexpected state {:?}", other),
    }
}

#[test]
fn foreign_signature_is_invalid() {
    let f = Facilitator::new(registry());
    let thief = SigningKey::from_slice(&[0x22; 32]).unwrap();
    let req = signed_request(&thief, 1_000_000, 3, 27);
    assert_eq!(invalid_reason(&f, &req, T), Some(ErrorReason::InvalidSignature));
}

#[test]
fn zero_based_recovery_byte_is_accepted() {
    let f = Facilitator::new(registry());
    let req = signed_request(&payer_key(), 1_000_000, 3, 0);
    assert!(f.verify(&req, T, &rich()).unwrap().is_valid);
}

#[test]
fn malformed_signatures_are_invalid() {
    let f = Facilitator::new(registry());
    let mut bad_v = signed_request(&payer_key(), 1_000_000, 3, 27);
    bad_v.payment_payload.signature[64] = 29;
    assert_eq!(invalid_reason(&f, &bad_v, T), Some(ErrorReason::InvalidSignature));
    let mut short = signed_request(&payer_key(), 1_000_000, 3, 27);
    short.payment_payload.signature.pop();
    assert_eq!(invalid_reason(&f, &short, T), Some(ErrorReason::InvalidSignature));
    let mut tampered = signed_request(&payer_key(), 1_000_000, 3, 27);
    tampered.payment_payload.authorization.valid_before = T + 301;
    tampered.payment_requirements.valid_before = T + 301;
    assert_eq!(invalid_reason(&f, &tampered, T), Some(ErrorReason::InvalidSignature));
}

#[test]
fn missing_token_domain_is_reported() {
    let f = Facilitator::new(registry());
    let mut req = signed_request(&payer_key(), 1_000_000, 3, 27);
    req.payment_requirements.extra = None;
    assert_eq!(invalid_reason(&f, &req, T), Some(ErrorReason::MissingTokenDomain));
}

#[test]
fn exact_amount_passes_and_one_less_fails() {
    let req = signed_request(&payer_key(), 1_000_000, 3, 27);
    assert_eq!(match_requirements(&req.payment_payload, &req.payment_requirements, T), Ok(()));
    let short = signed_request(&payer_key(), 999_999, 3, 27);
    assert_eq!(
        match_requirements(&short.payment_payload, &short.payment_requirements, T),
        Err(VerificationError::AmountMismatch)
    );
    let over = signed_request(&payer_key(), 1_000_001, 3, 27);
    assert_eq!(
        match_requirements(&over.payment_payload, &over.payment_requirements, T),
        Err(VerificationError::AmountMismatch)
    );
}

#[test]
fn window_end_boundary() {
    let req = signed_request(&payer_key(), 1_000_000, 3, 27);
    let (p, r) = (&req.payment_payload, &req.payment_requirements);
    assert_eq!(match_requirements(p, r, T + 299), Ok(()));
    assert_eq!(match_requirements(p, r, T + 300), Err(VerificationError::Expired));
    assert_eq!(match_requirements(p, r, T + 301), Err(VerificationError::Expired));
}

#[test]
fn window_start_allows_small_skew() {
    let mut req = signed_request(&payer_key(), 1_000_000, 3, 27);
    req.payment_payload.authorization.valid_after = T + 100;
    let (p, r) = (&req.payment_payload, &req.payment_requirements);
    assert_eq!(match_requirements(p, r, T + 94), Ok(()));
    assert_eq!(match_requirements(p, r, T + 93), Err(VerificationError::NotYetValid));
}

#[test]
fn matcher_reports_first_structural_problem() {
    let req = signed_request(&payer_key(), 999_999, 3, 27);
    let mut p = req.payment_payload.clone();
    let r = req.payment_requirements.clone();
    p.scheme = "upto".to_string();
    p.asset = Address { bytes: [0x04; 20] };
    assert_eq!(match_requirements(&p, &r, T), Err(VerificationError::SchemeNetworkMismatch));
    p.scheme = "exact".to_string();
    assert_eq!(match_requirements(&p, &r, T), Err(VerificationError::AssetMismatch));
    p.asset = usdc();
    assert_eq!(match_requirements(&p, &r, T), Err(VerificationError::AmountMismatch));
    p.authorization.value = TokenAmount::from_u128(1_000_000);
    p.authorization.to = Address { bytes: [0xBB; 20] };
    assert_eq!(match_requirements(&p, &r, T), Err(VerificationError::RecipientMismatch));
}

#[test]
fn matcher_is_deterministic() {
    let req = signed_request(&payer_key(), 999_999, 3, 27);
    let first = match_requirements(&req.payment_payload, &req.payment_requirements, T);
    for _ in 0..3 {
        assert_eq!(match_requirements(&req.payment_payload, &req.payment_requirements, T), first);
    }
}

#[test]
fn digest_matches_independent_encoding() {
    let req = signed_request(&payer_key(), 1_000_000, 3, 27);
    let a = req.payment_payload.authorization;
    let k = |b: &[u8]| -> Vec<u8> { Keccak256::digest(b).to_vec() };
    let word_u64 = |x: u64| -> Vec<u8> {
        let mut w = vec![0u8; 24];
        w.extend_from_slice(&x.to_be_bytes());
        w
    };
    let word_addr = |a: &Address| -> Vec<u8> {
        let mut w = vec![0u8; 12];
        w.extend_from_slice(&a.bytes);
        w
    };
    let mut s = k(b"TransferWithAuthorization(address from,address to,uint256 value,uint256 validAfter,uint256 validBefore,bytes32 nonce)");
    s.extend(word_addr(&a.from));
    s.extend(word_addr(&a.to));
    s.extend(vec![0u8; 16]);
    s.extend_from_slice(&1_000_000u128.to_be_bytes());
    s.extend(word_u64(0));
    s.extend(word_u64(T + 300));
    s.extend_from_slice(&a.nonce.bytes);
    let mut d = k(b"EIP712Domain(string name,string version,uint256 chainId,address verifyingContract)");
    d.extend(k(b"USDC"));
    d.extend(k(b"2"));
    d.extend(word_u64(BASE_SEPOLIA_CHAIN_ID));
    d.extend(word_addr(&usdc()));
    let mut m = vec![0x19u8, 0x01];
    m.extend(k(&d));
    m.extend(k(&s));
    let expected = k(&m);
    let digest = transfer_digest(&a, &TokenDomain { name: "USDC".to_string(), version: "2".to_string() }, BASE_SEPOLIA_CHAIN_ID, &usdc());
    assert_eq!(digest.to_vec(), expected);
}

#[test]
fn recovery_returns_the_signing_address() {
    let req = signed_request(&payer_key(), 1_000_000, 3, 27);
    let digest = transfer_digest(&req.payment_payload.authorization, req.payment_requirements.extra.as_ref().unwrap(), BASE_SEPOLIA_CHAIN_ID, &usdc());
    let signer = recover_signer(&digest, &req.payment_payload.signature).unwrap();
    assert_eq!(signer, address_of(&payer_key()));
    let mut other = digest;
    other[0] ^= 1;
    assert_ne!(recover_signer(&other, &req.payment_payload.signature), Some(address_of(&payer_key())));
    let (v, rs) = split_signature(&req.payment_payload.signature).unwrap();
    assert!(v == 27 || v == 28);
    assert_eq!(&rs[..], &req.payment_payload.signature[..64]);
}

#[test]
fn chain_query_names_payer_asset_and_nonce() {
    let req = signed_request(&payer_key(), 1_000_000, 3, 27);
    let q = chain_query(&req);
    assert_eq!(q.network, "base-sepolia");
    assert_eq!(q.asset, usdc());
    assert_eq!(q.payer, address_of(&payer_key()));
    assert_eq!(q.nonce, Nonce { bytes: [3; 32] });
}

#[test]
fn settlement_failures_are_classified() {
    let mut f = Facilitator::new(registry());
    let req = signed_request(&payer_key(), 1_000_000, 5, 27);
    let start = f.begin_settlement(&req, T, &rich());
    let failed = advance(start.clone(), ChainEvent::SubmissionFailed("nonce too low".to_string()));
    let reason = |s: SettlementState| match s {
        SettlementState::Failed(e) => {
            let r = e.error_response();
            assert_eq!(r.status, 500);
            match e {
                FacilitatorError::Settlement(SchemeError::OnchainFailure(o)) => o,
                other => panic!("unexpected error {:?}", other),
            }
        }
        other => panic!("unexpected state {:?}", other),
    };
    assert!(matches!(reason(failed), OnchainError::SubmissionFailed(m) if m == "nonce too low"));
    let tx = TxHash { bytes: [1; 32] };
    let waiting = advance(start, ChainEvent::Broadcast(tx));
    assert!(matches!(reason(advance(waiting.clone(), ChainEvent::Reverted("paused".to_string()))), OnchainError::ExecutionReverted(m) if m == "paused"));
    assert!(matches!(reason(advance(waiting.clone(), ChainEvent::ReceiptTimeout)), OnchainError::ConfirmationTimeout));
    assert!(matches!(advance(waiting, ChainEvent::Broadcast(tx)), SettlementState::AwaitingReceipt(_, _)));
}

#[test]
fn unregistered_payload_pair_is_unsupported() {
    let mut f = Facilitator::new(registry());
    let mut req = signed_request(&payer_key(), 1_000_000, 3, 27);
    req.payment_payload.network = "base".to_string();
    assert_eq!(invalid_reason(&f, &req, T), Some(ErrorReason::UnsupportedSchemeNetwork));
    match f.begin_settlement(&req, T, &rich()) {
        SettlementState::Failed(FacilitatorError::Settlement(SchemeError::PaymentVerification(e))) => {
            assert_eq!(e, VerificationError::UnsupportedSchemeNetwork)
        }
        other => panic!("unexpected state {:?}", other),
    }
}

#[test]
fn registered_but_different_pair_is_a_mismatch() {
    let mut reg = registry();
    assert!(reg.register(SchemeHandler {
        scheme: "exact".to_string(),
        network: "base".to_string(),
        chain_id: 8453,
        kind: SchemeKind::ExactEvm,
    }));
    let f = Facilitator::new(reg);
    let mut req = signed_request(&payer_key(), 1_000_000, 3, 27);
    req.payment_payload.network = "base".to_string();
    assert_eq!(invalid_reason(&f, &req, T), Some(ErrorReason::SchemeNetworkMismatch));
}

#[test]
fn precheck_decides_without_the_chain() {
    let f = Facilitator::new(registry());
    let short = signed_request(&payer_key(), 999_999, 3, 27);
    assert!(f.precheck(&short, T).is_err());
    let resp = f.verify(&short, T, &None).unwrap();
    assert_eq!(resp.invalid_reason, Some(ErrorReason::AmountMismatch));
    let good = signed_request(&payer_key(), 1_000_000, 3, 27);
    assert!(f.precheck(&good, T).is_ok());
    match f.verify(&good, T, &None) {
        Err(FacilitatorError::Verification(SchemeError::OnchainFailure(OnchainError::NotRead))) => {}
        other => panic!("unexpected answer {:?}", other),
    }
}

#[test]
fn failed_submission_releases_the_nonce() {
    let mut f = Facilitator::new(registry());
    let req = signed_request(&payer_key(), 1_000_000, 6, 27);
    let start = f.begin_settlement(&req, T, &rich());
    let failed = f.advance_settlement(start, ChainEvent::SubmissionFailed("rpc unreachable".to_string()));
    assert!(matches!(failed, SettlementState::Failed(_)));
    let retry = f.begin_settlement(&req, T, &rich());
    assert!(matches!(&retry, SettlementState::Submitting(_)));
    let tx = TxHash { bytes: [2; 32] };
    let waiting = f.advance_settlement(retry, ChainEvent::Broadcast(tx));
    let timed_out = f.advance_settlement(waiting, ChainEvent::ReceiptTimeout);
    assert!(matches!(timed_out, SettlementState::Failed(_)));
    assert!(!matches!(f.begin_settlement(&req, T, &rich()), SettlementState::Submitting(_)));
}
