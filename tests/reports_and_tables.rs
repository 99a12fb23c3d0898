use x402_facilitator::error::{
    ErrorBody, ErrorReason, FacilitatorError, OnchainError, SchemeError, VerificationError,
};
use x402_facilitator::ledger::NonceLedger;
use x402_facilitator::registry::{SchemeHandler, SchemeKind, SchemeRegistry};
use x402_facilitator::types::{Address, Nonce, TokenAmount};

fn handler(scheme: &str, network: &str, chain_id: u64) -> SchemeHandler {
    SchemeHandler {
        scheme: scheme.to_string(),
        network: network.to_string(),
        chain_id,
        kind: SchemeKind::ExactEvm,
    }
}

#[test]
fn reason_names_are_the_wire_codes() {
    assert_eq!(ErrorReason::AmountMismatch.name(), "AmountMismatch");
    assert_eq!(ErrorReason::NonceAlreadyUsed.name(), "NonceAlreadyUsed");
    assert_eq!(ErrorReason::UnsupportedSchemeNetwork.name(), "UnsupportedSchemeNetwork");
    assert_eq!(ErrorReason::ConfirmationTimeout.name(), "ConfirmationTimeout");
    assert_eq!(VerificationError::Expired.reason(), ErrorReason::Expired);
    assert_eq!(VerificationError::Expired.details(), "authorization window has closed");
}

#[test]
fn verification_failure_is_a_client_error() {
    let e = SchemeError::PaymentVerification(VerificationError::RecipientMismatch);
    assert_eq!(e.status_code(), 400);
    let p = e.as_payment_problem();
    assert_eq!(p.reason, ErrorReason::RecipientMismatch);
    assert_eq!(p.details, "authorized recipient differs from the required payee");
}

#[test]
fn onchain_failure_is_a_server_error() {
    let e = SchemeError::OnchainFailure(OnchainError::ExecutionReverted("FiatToken: paused".to_string()));
    assert_eq!(e.status_code(), 500);
    let p = e.as_payment_problem();
    assert_eq!(p.reason, ErrorReason::ExecutionReverted);
    assert_eq!(p.details, "FiatToken: paused");
    let t = SchemeError::OnchainFailure(OnchainError::ConfirmationTimeout).as_payment_problem();
    assert_eq!(t.reason, ErrorReason::ConfirmationTimeout);
    assert_eq!(t.details, "transaction was not confirmed in time");
    let s = SchemeError::OnchainFailure(OnchainError::SubmissionFailed("gas".to_string()));
    assert_eq!(s.as_payment_problem().reason, ErrorReason::SubmissionFailed);
}

#[test]
fn verification_error_body() {
    let e = FacilitatorError::Verification(SchemeError::PaymentVerification(VerificationError::Expired));
    let r = e.error_response();
    assert_eq!(r.status, 400);
    match r.body {
        ErrorBody::Verification { is_valid, invalid_reason, invalid_reason_details, payer } => {
            assert!(!is_valid);
            assert_eq!(invalid_reason, ErrorReason::Expired);
            assert_eq!(invalid_reason_details, "authorization window has closed");
            assert_eq!(payer, "");
        }
        other => panic!("unexpected body {:?}", other),
    }
}

#[test]
fn settlement_error_body() {
    let e = FacilitatorError::Settlement(SchemeError::OnchainFailure(OnchainError::ReadFailed("timeout".to_string())));
    let r = e.error_response();
    assert_eq!(r.status, 500);
    match r.body {
        ErrorBody::Settlement { success, network, transaction, error_reason, error_reason_details, payer } => {
            assert!(!success);
            assert_eq!(network, "");
            assert_eq!(transaction, "");
            assert_eq!(error_reason, ErrorReason::ChainReadFailed);
            assert_eq!(error_reason_details, "timeout");
            assert_eq!(payer, "");
        }
        other => panic!("unexpected body {:?}", other),
    }
}

#[test]
fn registry_refuses_duplicates_and_lists_verbatim() {
    let mut reg = SchemeRegistry::new();
    assert!(reg.register(handler("exact", "base", 8453)));
    assert!(reg.register(handler("exact", "base-sepolia", 84532)));
    assert!(!reg.register(handler("exact", "base", 1)));
    assert_eq!(reg.lookup(&"exact".to_string(), &"base".to_string()).unwrap().chain_id, 8453);
    assert_eq!(reg.lookup(&"exact".to_string(), &"base-sepolia".to_string()).unwrap().chain_id, 84532);
    assert!(reg.lookup(&"exact".to_string(), &"avalanche".to_string()).is_none());
    assert!(reg.lookup(&"upto".to_string(), &"base".to_string()).is_none());
    let listed = reg.supported();
    assert_eq!(listed.len(), 2);
    assert_eq!((listed[0].scheme.as_str(), listed[0].network.as_str()), ("exact", "base"));
    assert_eq!((listed[1].scheme.as_str(), listed[1].network.as_str()), ("exact", "base-sepolia"));
}

#[test]
fn empty_registry_supports_nothing() {
    let reg = SchemeRegistry::new();
    assert!(reg.supported().is_empty());
    assert!(reg.lookup(&"exact".to_string(), &"base".to_string()).is_none());
}

#[test]
fn ledger_tracks_signer_network_and_nonce() {
    let mut ledger = NonceLedger::new();
    let alice = Address { bytes: [1; 20] };
    let bob = Address { bytes: [2; 20] };
    let n = Nonce { bytes: [9; 32] };
    let base = "base".to_string();
    assert!(!ledger.contains(&alice, &base, &n));
    ledger.record(&alice, &base, &n);
    assert!(ledger.contains(&alice, &base, &n));
    assert!(!ledger.contains(&bob, &base, &n));
    assert!(!ledger.contains(&alice, &"base-sepolia".to_string(), &n));
    assert!(!ledger.contains(&alice, &base, &Nonce { bytes: [8; 32] }));
}

#[test]
fn amounts_compare_across_halves() {
    let small = TokenAmount { high: 0, low: u128::MAX };
    let big = TokenAmount { high: 1, low: 0 };
    assert!(small.less_than(&big));
    assert!(!big.less_than(&small));
    assert!(!big.less_than(&big));
    assert!(big.equals(&TokenAmount { high: 1, low: 0 }));
    assert!(!small.equals(&big));
    assert_eq!(TokenAmount::from_u128(7), TokenAmount { high: 0, low: 7 });
}

#[test]
fn addresses_compare_bytewise() {
    let a = Address { bytes: [1; 20] };
    let mut b = a;
    assert!(a.same_as(&b));
    b.bytes[19] = 2;
    assert!(!a.same_as(&b));
}
