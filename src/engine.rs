//! The facilitator: dispatch through the registry, the matcher, the
//! authorization checks, and the decisions of settlement.
use vstd::prelude::*;
use crate::authorization::{
    chain_state_verdict, check_chain_state, signature_verdict, verify_signature, ChainObservation,
};
use crate::eip712::{signature_parts, split_signature};
use crate::error::{
    verification_details, verification_reason, ErrorReason, FacilitatorError, OnchainError, SchemeError, VerificationError,
};
use crate::ledger::NonceLedger;
use crate::matcher::{match_requirements, match_verdict};
use crate::registry::SchemeRegistry;
use crate::types::{
    Address, ExactAuthorization, Nonce, SettleRequest, SettleResponse, SupportedEntry, TxHash,
    VerifyRequest, VerifyResponse,
};

verus! {

/// What the chain must be asked before a decision on a request: whether the
/// payer's nonce was used on the token contract, and the payer's balance.
#[derive(Clone, Debug)]
pub struct ChainQuery {
    pub network: String,
    pub asset: Address,
    pub payer: Address,
    pub nonce: Nonce,
}

/// The reads that a decision on `req` needs.
pub fn chain_query(req: &VerifyRequest) -> (q: ChainQuery)
    ensures
        q.network@ == req.payment_requirements.network@,
        q.asset == req.payment_requirements.asset,
        q.payer == req.payment_payload.authorization.from,
        q.nonce == req.payment_payload.authorization.nonce,
{
    ChainQuery {
        network: req.payment_requirements.network.clone(),
        asset: req.payment_requirements.asset,
        payer: req.payment_payload.authorization.from,
        nonce: req.payment_payload.authorization.nonce,
    }
}

/// A verified transfer waiting to be executed with `transferWithAuthorization`
/// on the asset contract of `network`.
#[derive(Clone, Debug)]
pub struct PendingSettlement {
    pub network: String,
    pub chain_id: u64,
    pub asset: Address,
    pub authorization: ExactAuthorization,
    pub v: u8,
    pub rs: [u8; 64],
}

/// Where a settlement stands.
#[derive(Clone, Debug)]
pub enum SettlementState {
    /// The transfer is to be submitted.
    Submitting(PendingSettlement),
    /// The transfer was broadcast; its receipt is awaited.
    AwaitingReceipt(PendingSettlement, TxHash),
    /// The transfer was confirmed.
    Settled(SettleResponse),
    /// Settlement ended without a confirmed transfer.
    Failed(FacilitatorError),
}

/// What the chain collaborator reports back.
#[derive(Clone, Debug)]
pub enum ChainEvent {
    Broadcast(TxHash),
    SubmissionFailed(String),
    Confirmed,
    Reverted(String),
    ReceiptTimeout,
}

/// The registry of handlers and the ledger of nonces sent to settlement.
pub struct Facilitator {
    pub registry: SchemeRegistry,
    pub ledger: NonceLedger,
}

/// Whether `new` holds what `old` held plus the nonce of `req`'s payer on
/// `req`'s network.
pub open spec fn records_payment(old: NonceLedger, new: NonceLedger, req: VerifyRequest) -> bool {
    forall|s: Seq<u8>, w: Seq<char>, n: Seq<u8>|
        #[trigger] new.used(s, w, n) == (old.used(s, w, n) || (s
            == req.payment_payload.authorization.from@ && w == req.payment_requirements.network@
            && n == req.payment_payload.authorization.nonce@))
}

/// Whether `ps` is the transfer that `req` asks for, on chain `chain_id`.
pub open spec fn pending_for(ps: PendingSettlement, req: VerifyRequest, chain_id: u64) -> bool {
    &&& ps.network@ == req.payment_requirements.network@
    &&& ps.chain_id == chain_id
    &&& ps.asset == req.payment_requirements.asset
    &&& ps.authorization == req.payment_payload.authorization
    &&& signature_parts(req.payment_payload.signature@) == Some((ps.v, ps.rs@))
}

/// The state after `event` in state `s`. A terminal state, or an event that
/// does not belong to the state, leaves it as it is; nothing leads back to
/// submission.
pub open spec fn advance_spec(s: SettlementState, event: ChainEvent) -> SettlementState {
    match s {
        SettlementState::Submitting(p) => match event {
            ChainEvent::Broadcast(tx) => SettlementState::AwaitingReceipt(p, tx),
            ChainEvent::SubmissionFailed(m) => SettlementState::Failed(
                FacilitatorError::Settlement(
                    SchemeError::OnchainFailure(OnchainError::SubmissionFailed(m)),
                ),
            ),
            _ => s,
        },
        SettlementState::AwaitingReceipt(p, tx) => match event {
            ChainEvent::Confirmed => SettlementState::Settled(
                SettleResponse {
                    success: true,
                    network: p.network,
                    transaction: tx,
                    payer: p.authorization.from,
                },
            ),
            ChainEvent::Reverted(m) => SettlementState::Failed(
                FacilitatorError::Settlement(
                    SchemeError::OnchainFailure(OnchainError::ExecutionReverted(m)),
                ),
            ),
            ChainEvent::ReceiptTimeout => SettlementState::Failed(
                FacilitatorError::Settlement(
                    SchemeError::OnchainFailure(OnchainError::ConfirmationTimeout),
                ),
            ),
            _ => s,
        },
        _ => s,
    }
}

/// Moves a settlement on by what the chain reported.
pub fn advance(s: SettlementState, event: ChainEvent) -> (r: SettlementState)
    ensures
        r == advance_spec(s, event),
{
    match s {
        SettlementState::Submitting(p) => match event {
            ChainEvent::Broadcast(tx) => SettlementState::AwaitingReceipt(p, tx),
            ChainEvent::SubmissionFailed(m) => SettlementState::Failed(
                FacilitatorError::Settlement(
                    SchemeError::OnchainFailure(OnchainError::SubmissionFailed(m)),
                ),
            ),
            _ => SettlementState::Submitting(p),
        },
        SettlementState::AwaitingReceipt(p, tx) => match event {
            ChainEvent::Confirmed => SettlementState::Settled(
                SettleResponse {
                    success: true,
                    network: p.network,
                    transaction: tx,
                    payer: p.authorization.from,
                },
            ),
            ChainEvent::Reverted(m) => SettlementState::Failed(
                FacilitatorError::Settlement(
                    SchemeError::OnchainFailure(OnchainError::ExecutionReverted(m)),
                ),
            ),
            ChainEvent::ReceiptTimeout => SettlementState::Failed(
                FacilitatorError::Settlement(
                    SchemeError::OnchainFailure(OnchainError::ConfirmationTimeout),
                ),
            ),
            _ => SettlementState::AwaitingReceipt(p, tx),
        },
        other => other,
    }
}

impl Facilitator {
    /// The registry holds one handler per combination.
    pub open spec fn wf(self) -> bool {
        self.registry.wf()
    }

    /// A facilitator over `registry` that has settled nothing yet.
    pub fn new(registry: SchemeRegistry) -> (r: Facilitator)
        requires
            registry.wf(),
        ensures
            r.wf(),
            r.registry == registry,
            forall|s: Seq<u8>, w: Seq<char>, n: Seq<u8>| !r.ledger.used(s, w, n),
    {
        Facilitator { registry, ledger: NonceLedger::new() }
    }

    /// The combinations this facilitator handles, verbatim and in order.
    pub fn supported(&self) -> (r: Vec<SupportedEntry>)
        ensures
            r@.len() == self.registry.entries().len(),
            forall|i: int|
                0 <= i < r@.len() ==> (#[trigger] r@[i]).scheme@
                    == self.registry.entries()[i].scheme@ && r@[i].network@
                    == self.registry.entries()[i].network@,
    {
        self.registry.supported()
    }

    /// Every check on `req` at time `now` that needs nothing from the chain,
    /// in order: the registry serves both the requirements' and the payload's
    /// scheme and network, the matcher passes, the signature recovers to the
    /// payer, and the engine holds no record of the nonce.
    pub open spec fn precheck_spec(self, req: VerifyRequest, now: u64) -> Result<(), SchemeError> {
        let p = req.payment_payload;
        let r = req.payment_requirements;
        if !self.registry.has(r.scheme@, r.network@) || !self.registry.has(p.scheme@, p.network@) {
            Err(SchemeError::PaymentVerification(VerificationError::UnsupportedSchemeNetwork))
        } else {
            match match_verdict(p, r, now) {
                Err(e) => Err(SchemeError::PaymentVerification(e)),
                Ok(_) => match signature_verdict(
                    p,
                    r,
                    self.registry.lookup_spec(r.scheme@, r.network@)->0.chain_id,
                ) {
                    Err(e) => Err(SchemeError::PaymentVerification(e)),
                    Ok(_) => if self.ledger.used(
                        p.authorization.from@,
                        r.network@,
                        p.authorization.nonce@,
                    ) {
                        Err(SchemeError::PaymentVerification(VerificationError::NonceAlreadyUsed))
                    } else {
                        Ok(())
                    },
                },
            }
        }
    }

    /// Runs the checks that need nothing from the chain; where they pass, a
    /// decision also needs the chain's report on `chain_query(req)`.
    pub fn precheck(&self, req: &VerifyRequest, now: u64) -> (r: Result<(), SchemeError>)
        requires
            self.wf(),
        ensures
            r == self.precheck_spec(*req, now),
    {
        let p = &req.payment_payload;
        let r = &req.payment_requirements;
        let handler = match self.registry.lookup(&r.scheme, &r.network) {
            None => {
                return Err(
                    SchemeError::PaymentVerification(VerificationError::UnsupportedSchemeNetwork),
                );
            },
            Some(h) => h,
        };
        if self.registry.lookup(&p.scheme, &p.network).is_none() {
            return Err(SchemeError::PaymentVerification(VerificationError::UnsupportedSchemeNetwork));
        }
        if let Err(e) = match_requirements(p, r, now) {
            return Err(SchemeError::PaymentVerification(e));
        }
        if let Err(e) = verify_signature(p, r, handler.chain_id) {
            return Err(SchemeError::PaymentVerification(e));
        }
        if self.ledger.contains(&p.authorization.from, &r.network, &p.authorization.nonce) {
            return Err(SchemeError::PaymentVerification(VerificationError::NonceAlreadyUsed));
        }
        Ok(())
    }

    /// Every check on `req`: the prechecks, then the chain's report, which
    /// must have been read (`Some`) and read without error.
    pub open spec fn check_spec(
        self,
        req: VerifyRequest,
        now: u64,
        observed: Option<Result<ChainObservation, String>>,
    ) -> Result<(), SchemeError> {
        match self.precheck_spec(req, now) {
            Err(e) => Err(e),
            Ok(_) => match observed {
                None => Err(SchemeError::OnchainFailure(OnchainError::NotRead)),
                Some(Err(m)) => Err(SchemeError::OnchainFailure(OnchainError::ReadFailed(m))),
                Some(Ok(o)) => match chain_state_verdict(req.payment_payload, o) {
                    Err(e) => Err(SchemeError::PaymentVerification(e)),
                    Ok(_) => Ok(()),
                },
            },
        }
    }

    /// Runs every check on `req`.
    pub fn check(
        &self,
        req: &VerifyRequest,
        now: u64,
        observed: &Option<Result<ChainObservation, String>>,
    ) -> (r: Result<(), SchemeError>)
        requires
            self.wf(),
        ensures
            r == self.check_spec(*req, now, *observed),
    {
        self.precheck(req, now)?;
        match observed {
            None => Err(SchemeError::OnchainFailure(OnchainError::NotRead)),
            Some(Err(m)) => Err(SchemeError::OnchainFailure(OnchainError::ReadFailed(m.clone()))),
            Some(Ok(o)) => match check_chain_state(&req.payment_payload, o) {
                Err(e) => Err(SchemeError::PaymentVerification(e)),
                Ok(_) => Ok(()),
            },
        }
    }

    /// Whether `r` is the answer to a verify request: a valid verdict, or an
    /// invalid one with the failure's reason and details, naming the payer;
    /// an error where the chain was not read or could not be read.
    pub open spec fn verify_spec(
        self,
        req: VerifyRequest,
        now: u64,
        observed: Option<Result<ChainObservation, String>>,
        r: Result<VerifyResponse, FacilitatorError>,
    ) -> bool {
        let payer = req.payment_payload.authorization.from;
        match self.check_spec(req, now, observed) {
            Ok(_) => r matches Ok(v) && v.is_valid && v.invalid_reason is None
                && v.invalid_reason_details@.len() == 0 && v.payer == payer,
            Err(SchemeError::PaymentVerification(e)) => r matches Ok(v) && !v.is_valid
                && v.invalid_reason == Some(verification_reason(e)) && v.invalid_reason_details@
                == verification_details(e) && v.payer == payer,
            Err(SchemeError::OnchainFailure(o)) => r == Err::<VerifyResponse, FacilitatorError>(
                FacilitatorError::Verification(SchemeError::OnchainFailure(o)),
            ),
        }
    }

    /// Verifies `req` at time `now`, given what the chain reported; submits
    /// nothing.
    pub fn verify(
        &self,
        req: &VerifyRequest,
        now: u64,
        observed: &Option<Result<ChainObservation, String>>,
    ) -> (r: Result<VerifyResponse, FacilitatorError>)
        requires
            self.wf(),
        ensures
            self.verify_spec(*req, now, *observed, r),
    {
        let payer = req.payment_payload.authorization.from;
        match self.check(req, now, observed) {
            Ok(_) => Ok(
                VerifyResponse {
                    is_valid: true,
                    invalid_reason: None,
                    invalid_reason_details: String::new(),
                    payer,
                },
            ),
            Err(SchemeError::PaymentVerification(e)) => Ok(
                VerifyResponse {
                    is_valid: false,
                    invalid_reason: Some(e.reason()),
                    invalid_reason_details: e.details(),
                    payer,
                },
            ),
            Err(SchemeError::OnchainFailure(o)) => Err(
                FacilitatorError::Verification(SchemeError::OnchainFailure(o)),
            ),
        }
    }

    /// Whether `s` is how a settlement of `req` starts: with the transfer to
    /// submit where every check passes, else failed with the first problem.
    pub open spec fn settlement_start_spec(
        self,
        req: VerifyRequest,
        now: u64,
        observed: Option<Result<ChainObservation, String>>,
        s: SettlementState,
    ) -> bool {
        match self.check_spec(req, now, observed) {
            Err(e) => s == SettlementState::Failed(FacilitatorError::Settlement(e)),
            Ok(_) => s matches SettlementState::Submitting(ps) && pending_for(
                ps,
                req,
                self.registry.lookup_spec(
                    req.payment_requirements.scheme@,
                    req.payment_requirements.network@,
                )->0.chain_id,
            ),
        }
    }

    /// Starts settling `req`: runs every check again, and where all pass
    /// records the nonce as sent and returns the transfer to submit.
    pub fn begin_settlement(
        &mut self,
        req: &SettleRequest,
        now: u64,
        observed: &Option<Result<ChainObservation, String>>,
    ) -> (r: SettlementState)
        requires
            old(self).wf(),
        ensures
            final(self).wf(),
            final(self).registry == old(self).registry,
            old(self).settlement_start_spec(*req, now, *observed, r),
            r is Submitting ==> records_payment(old(self).ledger, final(self).ledger, *req),
            !(r is Submitting) ==> final(self).ledger == old(self).ledger,
    {
        if let Err(e) = self.check(req, now, observed) {
            return SettlementState::Failed(FacilitatorError::Settlement(e));
        }
        let p = &req.payment_payload;
        let r = &req.payment_requirements;
        let chain_id = match self.registry.lookup(&r.scheme, &r.network) {
            Some(h) => h.chain_id,
            None => {
                return SettlementState::Failed(
                    FacilitatorError::Settlement(
                        SchemeError::PaymentVerification(
                            VerificationError::UnsupportedSchemeNetwork,
                        ),
                    ),
                );
            },
        };
        let (v, rs) = match split_signature(&p.signature) {
            Some(parts) => parts,
            None => {
                return SettlementState::Failed(
                    FacilitatorError::Settlement(
                        SchemeError::PaymentVerification(VerificationError::InvalidSignature),
                    ),
                );
            },
        };
        self.ledger.record(&p.authorization.from, &r.network, &p.authorization.nonce);
        SettlementState::Submitting(
            PendingSettlement {
                network: r.network.clone(),
                chain_id,
                asset: r.asset,
                authorization: p.authorization,
                v,
                rs,
            },
        )
    }

    /// Moves a settlement on by what the chain reported. Where its submission
    /// failed, the nonce is released, so that the same authorization can be
    /// settled again; every other step leaves the ledger as it is.
    pub fn advance_settlement(&mut self, s: SettlementState, event: ChainEvent) -> (r:
        SettlementState)
        requires
            old(self).wf(),
        ensures
            final(self).wf(),
            final(self).registry == old(self).registry,
            r == advance_spec(s, event),
            match (s, event) {
                (SettlementState::Submitting(p), ChainEvent::SubmissionFailed(_)) => forall|
                    a: Seq<u8>,
                    w: Seq<char>,
                    n: Seq<u8>,
                |
                    #[trigger] final(self).ledger.used(a, w, n) == (old(self).ledger.used(a, w, n)
                        && !(a == p.authorization.from@ && w == p.network@ && n
                        == p.authorization.nonce@)),
                _ => final(self).ledger == old(self).ledger,
            },
    {
        if let SettlementState::Submitting(p) = &s {
            if let ChainEvent::SubmissionFailed(_) = &event {
                self.ledger.release(&p.authorization.from, &p.network, &p.authorization.nonce);
            }
        }
        advance(s, event)
    }
}

} // verus!

verus! {

/// Where `verify` finds a request valid, a settlement started at once on
/// the same facilitator, time and chain report passes its re-verification
/// and goes on to submission.
pub proof fn lemma_verify_settle_consistent(
    f: Facilitator,
    req: VerifyRequest,
    now: u64,
    observed: Option<Result<ChainObservation, String>>,
    answer: Result<VerifyResponse, FacilitatorError>,
    s: SettlementState,
)
    requires
        f.wf(),
        f.verify_spec(req, now, observed, answer),
        answer matches Ok(resp) && resp.is_valid,
        f.settlement_start_spec(req, now, observed, s),
    ensures
        s is Submitting,
{
}

/// A payment that passes every check is answered valid, naming its payer:
/// both pairs registered, the matcher and the signature passing, the nonce
/// neither recorded nor used on chain, and the balance covering the value.
pub proof fn lemma_valid_payment_accepted(
    f: Facilitator,
    req: VerifyRequest,
    now: u64,
    o: ChainObservation,
    answer: Result<VerifyResponse, FacilitatorError>,
)
    requires
        f.wf(),
        f.registry.has(req.payment_requirements.scheme@, req.payment_requirements.network@),
        f.registry.has(req.payment_payload.scheme@, req.payment_payload.network@),
        match_verdict(req.payment_payload, req.payment_requirements, now) is Ok,
        signature_verdict(
            req.payment_payload,
            req.payment_requirements,
            f.registry.lookup_spec(
                req.payment_requirements.scheme@,
                req.payment_requirements.network@,
            )->0.chain_id,
        ) is Ok,
        !f.ledger.used(
            req.payment_payload.authorization.from@,
            req.payment_requirements.network@,
            req.payment_payload.authorization.nonce@,
        ),
        !o.nonce_used,
        o.balance.value() >= req.payment_payload.authorization.value.value(),
        f.verify_spec(req, now, Some(Ok(o)), answer),
    ensures
        answer matches Ok(v) && v.is_valid && v.payer == req.payment_payload.authorization.from,
{
}

/// Once a settlement of a payer's nonce on a network has started, no later
/// settlement of the same nonce by the same payer on the same network
/// reaches submission; one that passes the registry, the matcher and the
/// signature check fails with `NonceAlreadyUsed`.
pub proof fn lemma_replay_rejected(
    before: Facilitator,
    after: Facilitator,
    first: VerifyRequest,
    first_now: u64,
    first_observed: Option<Result<ChainObservation, String>>,
    first_state: SettlementState,
    second: VerifyRequest,
    second_now: u64,
    second_observed: Option<Result<ChainObservation, String>>,
    second_state: SettlementState,
)
    requires
        before.wf(),
        before.settlement_start_spec(first, first_now, first_observed, first_state),
        first_state is Submitting,
        records_payment(before.ledger, after.ledger, first),
        after.registry == before.registry,
        second.payment_payload.authorization.from@ == first.payment_payload.authorization.from@,
        second.payment_requirements.network@ == first.payment_requirements.network@,
        second.payment_payload.authorization.nonce@ == first.payment_payload.authorization.nonce@,
        after.settlement_start_spec(second, second_now, second_observed, second_state),
    ensures
        !(second_state is Submitting),
        ({
            let p = second.payment_payload;
            let r = second.payment_requirements;
            after.registry.has(r.scheme@, r.network@) && after.registry.has(p.scheme@, p.network@)
                && match_verdict(p, r, second_now) is Ok && signature_verdict(
                p,
                r,
                after.registry.lookup_spec(r.scheme@, r.network@)->0.chain_id,
            ) is Ok ==> second_state == SettlementState::Failed(
                FacilitatorError::Settlement(
                    SchemeError::PaymentVerification(VerificationError::NonceAlreadyUsed),
                ),
            )
        }),
{
    let p = first.payment_payload;
    let r = first.payment_requirements;
    assert(after.ledger.used(p.authorization.from@, r.network@, p.authorization.nonce@));
}

/// While a nonce is recorded, no settlement of it reaches submission.
/// `begin_settlement` records the nonce of every settlement it starts, and
/// `advance_settlement` releases it only on a failed submission, so over any
/// sequence of calls this blocks every settlement of a nonce whose transfer
/// was broadcast.
pub proof fn lemma_recorded_nonce_blocks_settlement(
    f: Facilitator,
    req: VerifyRequest,
    now: u64,
    observed: Option<Result<ChainObservation, String>>,
    s: SettlementState,
)
    requires
        f.wf(),
        f.ledger.used(
            req.payment_payload.authorization.from@,
            req.payment_requirements.network@,
            req.payment_payload.authorization.nonce@,
        ),
        f.settlement_start_spec(req, now, observed, s),
    ensures
        !(s is Submitting),
{
}

/// A request whose requirements or payload name a `(scheme, network)` that
/// the registry does not hold is answered, by both verification and
/// settlement, with `UnsupportedSchemeNetwork`.
pub proof fn lemma_unsupported_rejected(
    f: Facilitator,
    req: VerifyRequest,
    now: u64,
    observed: Option<Result<ChainObservation, String>>,
    answer: Result<VerifyResponse, FacilitatorError>,
    s: SettlementState,
)
    requires
        f.wf(),
        !f.registry.has(req.payment_requirements.scheme@, req.payment_requirements.network@)
            || !f.registry.has(req.payment_payload.scheme@, req.payment_payload.network@),
        f.verify_spec(req, now, observed, answer),
        f.settlement_start_spec(req, now, observed, s),
    ensures
        answer matches Ok(v) && !v.is_valid && v.invalid_reason == Some(
            ErrorReason::UnsupportedSchemeNetwork,
        ) && v.payer == req.payment_payload.authorization.from,
        s == SettlementState::Failed(
            FacilitatorError::Settlement(
                SchemeError::PaymentVerification(VerificationError::UnsupportedSchemeNetwork),
            ),
        ),
{
}

/// Settlement is never retried by itself: no event takes a settlement back
/// to submission once the transfer left that state.
pub proof fn lemma_no_resubmission(s: SettlementState, event: ChainEvent)
    ensures
        advance_spec(s, event) is Submitting ==> s is Submitting,
{
}

} // verus!
