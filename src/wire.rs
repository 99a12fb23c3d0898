//! The request as it arrives on the wire, every number and byte string as
//! text, and its decoding into the engine's types.
use vstd::prelude::*;
use vstd::utf8::encode_utf8;
use crate::codec::{decimal_amount, hex_decode, parse_address, parse_amount, parse_nonce, decode_hex};
use crate::types::{
    Address, ExactAuthorization, Nonce, PaymentPayload, PaymentRequirements, TokenAmount,
    TokenDomain, VerifyRequest,
};

verus! {

/// The authorization as text: hex addresses and nonce, decimal numbers.
#[derive(Clone, Debug)]
pub struct WireAuthorization {
    pub from: String,
    pub to: String,
    pub value: String,
    pub valid_after: String,
    pub valid_before: String,
    pub nonce: String,
}

/// The payload as text.
#[derive(Clone, Debug)]
pub struct WirePayload {
    pub scheme: String,
    pub network: String,
    pub asset: String,
    pub authorization: WireAuthorization,
    pub signature: String,
}

/// The requirements as text, with the window in Unix seconds.
#[derive(Clone, Debug)]
pub struct WireRequirements {
    pub scheme: String,
    pub network: String,
    pub asset: String,
    pub pay_to: String,
    pub max_amount_required: String,
    pub valid_after: u64,
    pub valid_before: u64,
    pub extra: Option<TokenDomain>,
}

/// A verify or settle request as text.
#[derive(Clone, Debug)]
pub struct WireRequest {
    pub payment_payload: WirePayload,
    pub payment_requirements: WireRequirements,
}

/// The field of a wire request that could not be decoded.
#[derive(Clone, Copy, Debug, PartialEq, Eq, Structural)]
pub enum WireField {
    PayloadAsset,
    From,
    To,
    Value,
    ValidAfter,
    ValidBefore,
    Nonce,
    Signature,
    RequirementsAsset,
    PayTo,
    MaxAmountRequired,
}

/// The UTF-8 bytes of a text.
pub open spec fn text_bytes(s: String) -> Seq<u8> {
    encode_utf8(s@)
}

/// A text that holds a 20-byte hex address.
pub open spec fn address_text(s: String, a: Address) -> bool {
    hex_decode(text_bytes(s)) == Some(a@)
}

/// Whether a text holds a 20-byte hex address.
pub open spec fn address_text_ok(s: String) -> bool {
    hex_decode(text_bytes(s)) matches Some(v) && v.len() == 20
}

/// A text that holds a 32-byte hex nonce.
pub open spec fn nonce_text(s: String, n: Nonce) -> bool {
    hex_decode(text_bytes(s)) == Some(n@)
}

/// Whether a text holds a 32-byte hex nonce.
pub open spec fn nonce_text_ok(s: String) -> bool {
    hex_decode(text_bytes(s)) matches Some(v) && v.len() == 32
}

/// Whether a text holds a decimal amount below 2^256.
pub open spec fn amount_text_ok(s: String) -> bool {
    decimal_amount(text_bytes(s)) is Some
}

/// Whether a text holds a decimal number that fits in 64 bits.
pub open spec fn seconds_text_ok(s: String) -> bool {
    decimal_amount(text_bytes(s)) matches Some(v) && v <= u64::MAX
}

/// Whether a text holds hex bytes.
pub open spec fn bytes_text_ok(s: String) -> bool {
    hex_decode(text_bytes(s)) is Some
}

/// Whether every field of `w` decodes.
pub open spec fn wire_ok(w: WireRequest) -> bool {
    let p = w.payment_payload;
    let a = p.authorization;
    let r = w.payment_requirements;
    &&& address_text_ok(p.asset)
    &&& address_text_ok(a.from)
    &&& address_text_ok(a.to)
    &&& amount_text_ok(a.value)
    &&& seconds_text_ok(a.valid_after)
    &&& seconds_text_ok(a.valid_before)
    &&& nonce_text_ok(a.nonce)
    &&& bytes_text_ok(p.signature)
    &&& address_text_ok(r.asset)
    &&& address_text_ok(r.pay_to)
    &&& amount_text_ok(r.max_amount_required)
}

/// Whether field `f` of `w` fails to decode.
pub open spec fn field_fails(w: WireRequest, f: WireField) -> bool {
    let p = w.payment_payload;
    let a = p.authorization;
    let r = w.payment_requirements;
    match f {
        WireField::PayloadAsset => !address_text_ok(p.asset),
        WireField::From => !address_text_ok(a.from),
        WireField::To => !address_text_ok(a.to),
        WireField::Value => !amount_text_ok(a.value),
        WireField::ValidAfter => !seconds_text_ok(a.valid_after),
        WireField::ValidBefore => !seconds_text_ok(a.valid_before),
        WireField::Nonce => !nonce_text_ok(a.nonce),
        WireField::Signature => !bytes_text_ok(p.signature),
        WireField::RequirementsAsset => !address_text_ok(r.asset),
        WireField::PayTo => !address_text_ok(r.pay_to),
        WireField::MaxAmountRequired => !amount_text_ok(r.max_amount_required),
    }
}

/// The place of a field in the order in which it is decoded.
pub open spec fn field_rank(f: WireField) -> int {
    match f {
        WireField::PayloadAsset => 0,
        WireField::From => 1,
        WireField::To => 2,
        WireField::Value => 3,
        WireField::ValidAfter => 4,
        WireField::ValidBefore => 5,
        WireField::Nonce => 6,
        WireField::Signature => 7,
        WireField::RequirementsAsset => 8,
        WireField::PayTo => 9,
        WireField::MaxAmountRequired => 10,
    }
}

/// Whether `req` is what `w` spells.
pub open spec fn decodes_to(w: WireRequest, req: VerifyRequest) -> bool {
    let wp = w.payment_payload;
    let wa = wp.authorization;
    let wr = w.payment_requirements;
    let p = req.payment_payload;
    let a = p.authorization;
    let r = req.payment_requirements;
    &&& p.scheme@ == wp.scheme@
    &&& p.network@ == wp.network@
    &&& address_text(wp.asset, p.asset)
    &&& address_text(wa.from, a.from)
    &&& address_text(wa.to, a.to)
    &&& decimal_amount(text_bytes(wa.value)) == Some(a.value.value())
    &&& decimal_amount(text_bytes(wa.valid_after)) == Some(a.valid_after as nat)
    &&& decimal_amount(text_bytes(wa.valid_before)) == Some(a.valid_before as nat)
    &&& nonce_text(wa.nonce, a.nonce)
    &&& hex_decode(text_bytes(wp.signature)) == Some(p.signature@)
    &&& r.scheme@ == wr.scheme@
    &&& r.network@ == wr.network@
    &&& address_text(wr.asset, r.asset)
    &&& address_text(wr.pay_to, r.pay_to)
    &&& decimal_amount(text_bytes(wr.max_amount_required)) == Some(r.max_amount_required.value())
    &&& r.valid_after == wr.valid_after
    &&& r.valid_before == wr.valid_before
    &&& r.extra == wr.extra
}

fn address_field(s: &String, f: WireField) -> (r: Result<Address, WireField>)
    ensures
        match r {
            Ok(a) => address_text(*s, a),
            Err(e) => e == f && !address_text_ok(*s),
        },
{
    match parse_address(s.as_str().as_bytes()) {
        Some(a) => Ok(a),
        None => Err(f),
    }
}

fn amount_field(s: &String, f: WireField) -> (r: Result<TokenAmount, WireField>)
    ensures
        match r {
            Ok(a) => decimal_amount(text_bytes(*s)) == Some(a.value()),
            Err(e) => e == f && !amount_text_ok(*s),
        },
{
    match parse_amount(s.as_str().as_bytes()) {
        Some(a) => Ok(a),
        None => Err(f),
    }
}

fn seconds_field(s: &String, f: WireField) -> (r: Result<u64, WireField>)
    ensures
        match r {
            Ok(v) => decimal_amount(text_bytes(*s)) == Some(v as nat),
            Err(e) => e == f && !seconds_text_ok(*s),
        },
{
    match parse_amount(s.as_str().as_bytes()) {
        Some(a) => {
            if a.high == 0 && a.low <= u64::MAX as u128 {
                Ok(a.low as u64)
            } else {
                Err(f)
            }
        },
        None => Err(f),
    }
}

/// Decodes a wire request; on failure names the first field, in the order
/// of the struct's fields, that does not decode.
pub fn decode_request(w: &WireRequest) -> (r: Result<VerifyRequest, WireField>)
    ensures
        match r {
            Ok(req) => decodes_to(*w, req),
            Err(f) => field_fails(*w, f) && forall|g: WireField|
                field_rank(g) < field_rank(f) ==> !#[trigger] field_fails(*w, g),
        },
        r is Ok <==> wire_ok(*w),
{
    let wp = &w.payment_payload;
    let wa = &wp.authorization;
    let wr = &w.payment_requirements;
    let payload_asset = address_field(&wp.asset, WireField::PayloadAsset)?;
    let from = address_field(&wa.from, WireField::From)?;
    let to = address_field(&wa.to, WireField::To)?;
    let value = amount_field(&wa.value, WireField::Value)?;
    let valid_after = seconds_field(&wa.valid_after, WireField::ValidAfter)?;
    let valid_before = seconds_field(&wa.valid_before, WireField::ValidBefore)?;
    let nonce = match parse_nonce(wa.nonce.as_str().as_bytes()) {
        Some(n) => n,
        None => {
            return Err(WireField::Nonce);
        },
    };
    let signature = match decode_hex(wp.signature.as_str().as_bytes()) {
        Some(s) => s,
        None => {
            return Err(WireField::Signature);
        },
    };
    let asset = address_field(&wr.asset, WireField::RequirementsAsset)?;
    let pay_to = address_field(&wr.pay_to, WireField::PayTo)?;
    let max_amount_required = amount_field(
        &wr.max_amount_required,
        WireField::MaxAmountRequired,
    )?;
    let extra = match &wr.extra {
        Some(d) => Some(TokenDomain { name: d.name.clone(), version: d.version.clone() }),
        None => None,
    };
    Ok(
        VerifyRequest {
            payment_payload: PaymentPayload {
                scheme: wp.scheme.clone(),
                network: wp.network.clone(),
                asset: payload_asset,
                authorization: ExactAuthorization {
                    from,
                    to,
                    value,
                    valid_after,
                    valid_before,
                    nonce,
                },
                signature,
            },
            payment_requirements: PaymentRequirements {
                scheme: wr.scheme.clone(),
                network: wr.network.clone(),
                asset,
                pay_to,
                max_amount_required,
                valid_after: wr.valid_after,
                valid_before: wr.valid_before,
                extra,
            },
        },
    )
}

} // verus!
