//! EIP-712 typed-data digest of an EIP-3009 `TransferWithAuthorization`, and
//! recovery of the address that signed it.
use vstd::prelude::*;
use vstd::utf8::encode_utf8;
use crate::crypto::{keccak, keccak256, recover_public_key, secp256k1_recovered_key};
use crate::types::{Address, ExactAuthorization, TokenAmount, TokenDomain};

verus! {

/// The EIP-712 type string of an EIP-3009 transfer authorization.
pub const TRANSFER_WITH_AUTHORIZATION_TYPE: &'static str =
    "TransferWithAuthorization(address from,address to,uint256 value,uint256 validAfter,uint256 validBefore,bytes32 nonce)";

/// The EIP-712 type string of the domain.
pub const EIP712_DOMAIN_TYPE: &'static str =
    "EIP712Domain(string name,string version,uint256 chainId,address verifyingContract)";

/// The `n`-byte big-endian encoding of `x` modulo 256^n.
pub open spec fn be_bytes(x: nat, n: nat) -> Seq<u8>
    decreases n,
{
    if n == 0 {
        Seq::empty()
    } else {
        be_bytes(x / 256, (n - 1) as nat).push((x % 256) as u8)
    }
}

/// An unsigned integer as one 32-byte ABI word.
pub open spec fn uint_word(x: nat) -> Seq<u8> {
    be_bytes(x, 32)
}

/// An address as one 32-byte ABI word: twelve zero bytes, then the address.
pub open spec fn address_word(a: Seq<u8>) -> Seq<u8> {
    Seq::new(12, |i: int| 0u8) + a
}

/// A 256-bit amount as one 32-byte ABI word: the high half, then the low.
pub open spec fn amount_word(v: TokenAmount) -> Seq<u8> {
    be_bytes(v.high as nat, 16) + be_bytes(v.low as nat, 16)
}

/// The bytes whose hash is the struct hash of an authorization.
pub open spec fn struct_hash_preimage(a: ExactAuthorization) -> Seq<u8> {
    keccak256(encode_utf8(TRANSFER_WITH_AUTHORIZATION_TYPE@)) + address_word(a.from@) + address_word(
        a.to@,
    ) + amount_word(a.value) + uint_word(a.valid_after as nat) + uint_word(a.valid_before as nat)
        + a.nonce@
}

/// The bytes whose hash is the domain separator of a token contract.
pub open spec fn domain_preimage(
    name: Seq<char>,
    version: Seq<char>,
    chain_id: u64,
    contract: Seq<u8>,
) -> Seq<u8> {
    keccak256(encode_utf8(EIP712_DOMAIN_TYPE@)) + keccak256(encode_utf8(name)) + keccak256(
        encode_utf8(version),
    ) + uint_word(chain_id as nat) + address_word(contract)
}

/// The digest that the payer signs: `keccak256(0x19 0x01 || domain separator
/// || struct hash)`.
pub open spec fn signing_digest(
    a: ExactAuthorization,
    name: Seq<char>,
    version: Seq<char>,
    chain_id: u64,
    contract: Seq<u8>,
) -> Seq<u8> {
    keccak256(
        seq![0x19u8, 0x01u8] + keccak256(domain_preimage(name, version, chain_id, contract))
            + keccak256(struct_hash_preimage(a)),
    )
}

/// The recovery id that a signature's last byte `v` stands for: 27 and 28
/// as well as 0 and 1 are accepted.
pub open spec fn recovery_id_of(v: u8) -> Option<u8> {
    if v == 27 || v == 28 {
        Some((v - 27) as u8)
    } else if v == 0 || v == 1 {
        Some(v)
    } else {
        None
    }
}

/// The `v` byte that a token contract expects (27 or 28) and the 64 bytes
/// `r || s` of a 65-byte signature, where its last byte is a known recovery
/// id.
pub open spec fn signature_parts(sig: Seq<u8>) -> Option<(u8, Seq<u8>)> {
    if sig.len() != 65 {
        None
    } else {
        match recovery_id_of(sig[64]) {
            None => None,
            Some(id) => Some(((id + 27) as u8, sig.subrange(0, 64))),
        }
    }
}

/// The address that signed `digest` with the 65-byte `r || s || v`
/// signature `sig`: the last 20 bytes of the hash of the recovered key.
pub open spec fn recovered_signer(digest: Seq<u8>, sig: Seq<u8>) -> Option<Seq<u8>> {
    match signature_parts(sig) {
        None => None,
        Some((v, rs)) => match secp256k1_recovered_key(digest, rs, (v - 27) as u8) {
            None => None,
            Some(key) => Some(keccak256(key).subrange(12, 32)),
        },
    }
}

/// Appends the `n`-byte big-endian encoding of `x`.
fn push_be(out: &mut Vec<u8>, x: u128, n: usize)
    ensures
        final(out)@ == old(out)@ + be_bytes(x as nat, n as nat),
    decreases n,
{
    if n > 0 {
        push_be(out, x / 256, n - 1);
        out.push((x % 256) as u8);
        assert(out@ =~= old(out)@ + be_bytes(x as nat, n as nat));
    } else {
        assert(out@ =~= old(out)@ + be_bytes(x as nat, n as nat));
    }
}

/// Appends the bytes of `b`.
fn push_all(out: &mut Vec<u8>, b: &[u8])
    ensures
        final(out)@ == old(out)@ + b@,
{
    let mut i: usize = 0;
    while i < b.len()
        invariant
            i <= b@.len(),
            out@ == old(out)@ + b@.subrange(0, i as int),
        decreases b@.len() - i,
    {
        out.push(b[i]);
        i = i + 1;
        assert(out@ =~= old(out)@ + b@.subrange(0, i as int));
    }
    assert(b@.subrange(0, b@.len() as int) =~= b@);
}

/// Appends an address as a 32-byte word.
fn push_address_word(out: &mut Vec<u8>, a: &Address)
    ensures
        final(out)@ == old(out)@ + address_word(a@),
{
    push_be(out, 0, 12);
    push_all(out, a.bytes.as_slice());
    assert(be_bytes(0, 12) =~= Seq::new(12, |i: int| 0u8)) by {
        lemma_zero_be_bytes(12);
    }
    assert(out@ =~= old(out)@ + address_word(a@));
}

/// The encoding of zero is all zero bytes.
proof fn lemma_zero_be_bytes(n: nat)
    ensures
        be_bytes(0, n) =~= Seq::new(n, |i: int| 0u8),
    decreases n,
{
    if n > 0 {
        lemma_zero_be_bytes((n - 1) as nat);
    }
}

/// The struct hash of an authorization.
fn struct_hash(a: &ExactAuthorization) -> (h: [u8; 32])
    ensures
        h@ == keccak256(struct_hash_preimage(*a)),
{
    let mut buf: Vec<u8> = Vec::new();
    let type_hash = keccak(TRANSFER_WITH_AUTHORIZATION_TYPE.as_bytes());
    push_all(&mut buf, type_hash.as_slice());
    push_address_word(&mut buf, &a.from);
    push_address_word(&mut buf, &a.to);
    push_be(&mut buf, a.value.high, 16);
    push_be(&mut buf, a.value.low, 16);
    push_be(&mut buf, a.valid_after as u128, 32);
    push_be(&mut buf, a.valid_before as u128, 32);
    push_all(&mut buf, a.nonce.bytes.as_slice());
    assert(buf@ =~= struct_hash_preimage(*a));
    keccak(buf.as_slice())
}

/// The domain separator of a token contract on a chain.
fn domain_separator(domain: &TokenDomain, chain_id: u64, contract: &Address) -> (h: [u8; 32])
    ensures
        h@ == keccak256(domain_preimage(domain.name@, domain.version@, chain_id, contract@)),
{
    let mut buf: Vec<u8> = Vec::new();
    let type_hash = keccak(EIP712_DOMAIN_TYPE.as_bytes());
    push_all(&mut buf, type_hash.as_slice());
    let name_hash = keccak(domain.name.as_str().as_bytes());
    push_all(&mut buf, name_hash.as_slice());
    let version_hash = keccak(domain.version.as_str().as_bytes());
    push_all(&mut buf, version_hash.as_slice());
    push_be(&mut buf, chain_id as u128, 32);
    push_address_word(&mut buf, contract);
    assert(buf@ =~= domain_preimage(domain.name@, domain.version@, chain_id, contract@));
    keccak(buf.as_slice())
}

/// The EIP-712 digest that the payer of `a` signs for `contract` under
/// `domain` on chain `chain_id`.
pub fn transfer_digest(
    a: &ExactAuthorization,
    domain: &TokenDomain,
    chain_id: u64,
    contract: &Address,
) -> (d: [u8; 32])
    ensures
        d@ == signing_digest(*a, domain.name@, domain.version@, chain_id, contract@),
{
    let separator = domain_separator(domain, chain_id, contract);
    let hash = struct_hash(a);
    let mut buf: Vec<u8> = Vec::new();
    buf.push(0x19u8);
    buf.push(0x01u8);
    push_all(&mut buf, separator.as_slice());
    push_all(&mut buf, hash.as_slice());
    assert(buf@ =~= seq![0x19u8, 0x01u8] + separator@ + hash@);
    keccak(buf.as_slice())
}

/// Splits a signature into the `v` byte and `r || s`.
pub fn split_signature(sig: &Vec<u8>) -> (r: Option<(u8, [u8; 64])>)
    ensures
        match r {
            Some((v, rs)) => signature_parts(sig@) == Some((v, rs@)),
            None => signature_parts(sig@) is None,
        },
{
    if sig.len() != 65 {
        return None;
    }
    let last = sig[64];
    let v: u8 = if last == 27 || last == 28 {
        last
    } else if last == 0 || last == 1 {
        last + 27
    } else {
        return None;
    };
    let mut rs = [0u8; 64];
    let mut i: usize = 0;
    while i < 64
        invariant
            sig@.len() == 65,
            i <= 64,
            forall|j: int| 0 <= j < i ==> rs@[j] == sig@[j],
        decreases 64 - i,
    {
        rs[i] = sig[i];
        i = i + 1;
    }
    assert(rs@ =~= sig@.subrange(0, 64));
    Some((v, rs))
}

/// The address that signed `digest` with `sig`, if recovery succeeds.
pub fn recover_signer(digest: &[u8; 32], sig: &Vec<u8>) -> (r: Option<Address>)
    ensures
        match r {
            Some(a) => recovered_signer(digest@, sig@) == Some(a@),
            None => recovered_signer(digest@, sig@) is None,
        },
{
    let (v, rs) = match split_signature(sig) {
        Some(parts) => parts,
        None => {
            return None;
        },
    };
    let id: u8 = v - 27;
    let key = match recover_public_key(digest, &rs, id) {
        Some(k) => k,
        None => {
            return None;
        },
    };
    let h = keccak(key.as_slice());
    let mut out = [0u8; 20];
    let mut j: usize = 0;
    while j < 20
        invariant
            j <= 20,
            forall|t: int| 0 <= t < j ==> out@[t] == h@[t + 12],
        decreases 20 - j,
    {
        out[j] = h[j + 12];
        j = j + 1;
    }
    assert(out@ =~= h@.subrange(12, 32));
    Some(Address { bytes: out })
}

} // verus!
