//! Plain data handed between the transport layer and the engine.
use vstd::prelude::*;
use crate::error::ErrorReason;

verus! {

/// A 20-byte EVM account or contract address.
#[derive(Clone, Copy, Debug, PartialEq, Eq)]
pub struct Address {
    pub bytes: [u8; 20],
}

impl View for Address {
    type V = Seq<u8>;

    open spec fn view(&self) -> Seq<u8> {
        self.bytes@
    }
}

/// Byte-wise equality of two slices.
pub fn bytes_equal(a: &[u8], b: &[u8]) -> (r: bool)
    ensures
        r == (a@ == b@),
{
    if a.len() != b.len() {
        return false;
    }
    let mut i: usize = 0;
    while i < a.len()
        invariant
            a@.len() == b@.len(),
            i <= a@.len(),
            forall|j: int| 0 <= j < i ==> a@[j] == b@[j],
        decreases a@.len() - i,
    {
        if a[i] != b[i] {
            return false;
        }
        i = i + 1;
    }
    assert(a@ =~= b@);
    true
}

impl Address {
    /// Whether two addresses hold the same bytes.
    pub fn same_as(&self, other: &Address) -> (r: bool)
        ensures
            r == (self@ == other@),
    {
        bytes_equal(self.bytes.as_slice(), other.bytes.as_slice())
    }
}

/// The single-use 32-byte nonce of a transfer authorization.
#[derive(Clone, Copy, Debug, PartialEq, Eq)]
pub struct Nonce {
    pub bytes: [u8; 32],
}

impl View for Nonce {
    type V = Seq<u8>;

    open spec fn view(&self) -> Seq<u8> {
        self.bytes@
    }
}

impl Nonce {
    /// Whether two nonces hold the same bytes.
    pub fn same_as(&self, other: &Nonce) -> (r: bool)
        ensures
            r == (self@ == other@),
    {
        bytes_equal(self.bytes.as_slice(), other.bytes.as_slice())
    }
}

/// 2^128, the weight of the high half of a [`TokenAmount`].
pub open spec fn two_pow_128() -> nat {
    0x1_0000_0000_0000_0000_0000_0000_0000_0000nat
}

/// An unsigned 256-bit token amount in the token's smallest unit, held as
/// two 128-bit halves.
#[derive(Clone, Copy, Debug, PartialEq, Eq, Structural)]
pub struct TokenAmount {
    pub high: u128,
    pub low: u128,
}

impl TokenAmount {
    /// The amount as a natural number.
    pub open spec fn value(self) -> nat {
        self.high as nat * two_pow_128() + self.low as nat
    }

    /// An amount that fits in 128 bits.
    pub fn from_u128(v: u128) -> (r: TokenAmount)
        ensures
            r.value() == v,
    {
        TokenAmount { high: 0, low: v }
    }

    /// Whether `self` is strictly below `other`.
    pub fn less_than(&self, other: &TokenAmount) -> (r: bool)
        ensures
            r == (self.value() < other.value()),
    {
        proof {
            lemma_amount_order(*self, *other);
        }
        self.high < other.high || (self.high == other.high && self.low < other.low)
    }

    /// Whether the two amounts are equal.
    pub fn equals(&self, other: &TokenAmount) -> (r: bool)
        ensures
            r == (self.value() == other.value()),
    {
        proof {
            lemma_amount_order(*self, *other);
        }
        self.high == other.high && self.low == other.low
    }
}

/// Amounts compare as their high halves do, and on equal high halves as
/// their low halves do.
pub proof fn lemma_amount_order(a: TokenAmount, b: TokenAmount)
    ensures
        (a.value() < b.value()) == (a.high < b.high || (a.high == b.high && a.low < b.low)),
        (a.value() == b.value()) == (a.high == b.high && a.low == b.low),
{
    let p = two_pow_128() as int;
    let (ah, al, bh, bl) = (a.high as int, a.low as int, b.high as int, b.low as int);
    assert(0 <= al < p && 0 <= bl < p);
    if ah < bh {
        assert(ah * p + p <= bh * p) by (nonlinear_arith)
            requires ah < bh, 0 < p;
    } else if ah > bh {
        assert(bh * p + p <= ah * p) by (nonlinear_arith)
            requires bh < ah, 0 < p;
    }
}

} // verus!

verus! {

/// The EIP-3009 `transferWithAuthorization` fields that the payer signed.
#[derive(Clone, Copy, Debug, PartialEq, Eq)]
pub struct ExactAuthorization {
    pub from: Address,
    pub to: Address,
    pub value: TokenAmount,
    pub valid_after: u64,
    pub valid_before: u64,
    pub nonce: Nonce,
}

/// What the payer sends: the scheme and network it pays under, the token
/// whose EIP-712 domain it signed in, the authorization and its 65-byte
/// signature (`r || s || v`).
#[derive(Clone, Debug)]
pub struct PaymentPayload {
    pub scheme: String,
    pub network: String,
    pub asset: Address,
    pub authorization: ExactAuthorization,
    pub signature: Vec<u8>,
}

/// The EIP-712 domain name and version of a token contract.
#[derive(Clone, Debug)]
pub struct TokenDomain {
    pub name: String,
    pub version: String,
}

/// What the seller asks for.
#[derive(Clone, Debug)]
pub struct PaymentRequirements {
    pub scheme: String,
    pub network: String,
    pub asset: Address,
    pub pay_to: Address,
    pub max_amount_required: TokenAmount,
    pub valid_after: u64,
    pub valid_before: u64,
    pub extra: Option<TokenDomain>,
}

/// A payload together with the requirements it is meant to satisfy; used
/// for both verification and settlement.
#[derive(Clone, Debug)]
pub struct VerifyRequest {
    pub payment_payload: PaymentPayload,
    pub payment_requirements: PaymentRequirements,
}

/// Settlement takes the same request as verification.
pub type SettleRequest = VerifyRequest;

/// The hash of a submitted transaction.
#[derive(Clone, Copy, Debug, PartialEq, Eq)]
pub struct TxHash {
    pub bytes: [u8; 32],
}

/// One `(scheme, network)` combination that the facilitator handles.
#[derive(Clone, Debug)]
pub struct SupportedEntry {
    pub scheme: String,
    pub network: String,
}

} // verus!

verus! {

/// The verdict on a payment: valid, or why not with a diagnostic text
/// (empty when valid), and the payer it names.
#[derive(Clone, Debug)]
pub struct VerifyResponse {
    pub is_valid: bool,
    pub invalid_reason: Option<ErrorReason>,
    pub invalid_reason_details: String,
    pub payer: Address,
}

impl VerifyResponse {
    /// The HTTP status of this answer: 200 for a valid payment, 400 for an
    /// invalid one.
    pub fn status_code(&self) -> (code: u16)
        ensures
            code == (if self.is_valid { 200u16 } else { 400u16 }),
    {
        if self.is_valid {
            200
        } else {
            400
        }
    }
}

/// A settled payment: the network and transaction that carried it.
#[derive(Clone, Debug)]
pub struct SettleResponse {
    pub success: bool,
    pub network: String,
    pub transaction: TxHash,
    pub payer: Address,
}

} // verus!
