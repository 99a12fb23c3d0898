//! Decoding of the textual wire forms: `0x`-prefixed hex for addresses,
//! nonces, hashes and signatures, and decimal strings for token amounts.
use vstd::arithmetic::div_mod::lemma_fundamental_div_mod;
use vstd::prelude::*;
use crate::types::{two_pow_128, Address, Nonce, TokenAmount, TxHash};

verus! {

/// The value of an ASCII hex digit of either case.
pub open spec fn hex_value(c: u8) -> Option<u8> {
    if 48 <= c <= 57 {
        Some((c - 48) as u8)
    } else if 97 <= c <= 102 {
        Some((c - 87) as u8)
    } else if 65 <= c <= 70 {
        Some((c - 55) as u8)
    } else {
        None
    }
}

/// The text without a leading `0x` or `0X`.
pub open spec fn strip_0x(b: Seq<u8>) -> Seq<u8> {
    if b.len() >= 2 && b[0] == 48 && (b[1] == 120 || b[1] == 88) {
        b.subrange(2, b.len() as int)
    } else {
        b
    }
}

/// The byte that hex digits `2i` and `2i + 1` of `d` spell.
pub open spec fn hex_pair(d: Seq<u8>, i: int) -> u8 {
    (hex_value(d[2 * i])->0 * 16 + hex_value(d[2 * i + 1])->0) as u8
}

/// The bytes that a hex text spells: an optional `0x`, then an even number
/// of hex digits.
pub open spec fn hex_decode(b: Seq<u8>) -> Option<Seq<u8>> {
    let d = strip_0x(b);
    if d.len() % 2 == 0 && forall|i: int| 0 <= i < d.len() ==> (#[trigger] hex_value(d[i])) is Some {
        Some(Seq::new(d.len() / 2, |i: int| hex_pair(d, i)))
    } else {
        None
    }
}

fn hex_digit(c: u8) -> (r: Option<u8>)
    ensures
        r == hex_value(c),
        r matches Some(v) ==> v < 16,
{
    if 48 <= c && c <= 57 {
        Some(c - 48)
    } else if 97 <= c && c <= 102 {
        Some(c - 87)
    } else if 65 <= c && c <= 70 {
        Some(c - 55)
    } else {
        None
    }
}

/// Decodes a hex text into bytes.
pub fn decode_hex(b: &[u8]) -> (r: Option<Vec<u8>>)
    ensures
        match r {
            Some(v) => hex_decode(b@) == Some(v@),
            None => hex_decode(b@) is None,
        },
{
    let start: usize = if b.len() >= 2 && b[0] == 48 && (b[1] == 120 || b[1] == 88) {
        2
    } else {
        0
    };
    let ghost d = strip_0x(b@);
    assert(d =~= b@.subrange(start as int, b@.len() as int));
    let n = b.len() - start;
    if n % 2 != 0 {
        return None;
    }
    let mut out: Vec<u8> = Vec::new();
    let mut i: usize = 0;
    while i < n / 2
        invariant
            start <= b@.len(),
            start + n == b@.len(),
            b@.len() == b.len(),
            d == strip_0x(b@),
            d == b@.subrange(start as int, b@.len() as int),
            n == d.len(),
            n == 2 * (n / 2),
            i <= n / 2,
            out@.len() == i,
            forall|j: int| 0 <= j < 2 * i ==> (#[trigger] hex_value(d[j])) is Some,
            forall|j: int| 0 <= j < i ==> out@[j] == hex_pair(d, j),
        decreases n / 2 - i,
    {
        assert(2 * i + 2 <= n);
        let hi = hex_digit(b[start + 2 * i]);
        let lo = hex_digit(b[start + 2 * i + 1]);
        assert(d[2 * i] == b@[start + 2 * i]);
        assert(d[2 * i + 1] == b@[start + 2 * i + 1]);
        match (hi, lo) {
            (Some(h), Some(l)) => {
                out.push(h * 16 + l);
                i = i + 1;
            },
            _ => {
                assert(hex_value(d[2 * i]) is None || hex_value(d[2 * i + 1]) is None);
                return None;
            },
        }
    }
    assert(out@ =~= Seq::new(d.len() / 2, |j: int| hex_pair(d, j)));
    Some(out)
}

/// Decodes a hex text of exactly `N` bytes into an array.
fn decode_fixed<const N: usize>(b: &[u8]) -> (r: Option<[u8; N]>)
    ensures
        match r {
            Some(a) => hex_decode(b@) == Some(a@),
            None => !(hex_decode(b@) matches Some(v) && v.len() == N),
        },
{
    let v = match decode_hex(b) {
        Some(v) => v,
        None => {
            return None;
        },
    };
    if v.len() != N {
        return None;
    }
    let mut a = [0u8; N];
    let mut i: usize = 0;
    while i < N
        invariant
            v@.len() == N,
            a@.len() == N,
            i <= N,
            forall|j: int| 0 <= j < i ==> a@[j] == v@[j],
        decreases N - i,
    {
        a[i] = v[i];
        i = i + 1;
    }
    assert(a@ =~= v@);
    Some(a)
}

/// Decodes a 20-byte hex address.
pub fn parse_address(b: &[u8]) -> (r: Option<Address>)
    ensures
        match r {
            Some(a) => hex_decode(b@) == Some(a@),
            None => !(hex_decode(b@) matches Some(v) && v.len() == 20),
        },
{
    match decode_fixed::<20>(b) {
        Some(bytes) => Some(Address { bytes }),
        None => None,
    }
}

/// Decodes a 32-byte hex nonce.
pub fn parse_nonce(b: &[u8]) -> (r: Option<Nonce>)
    ensures
        match r {
            Some(n) => hex_decode(b@) == Some(n@),
            None => !(hex_decode(b@) matches Some(v) && v.len() == 32),
        },
{
    match decode_fixed::<32>(b) {
        Some(bytes) => Some(Nonce { bytes }),
        None => None,
    }
}

/// Decodes a 32-byte hex transaction hash.
pub fn parse_tx_hash(b: &[u8]) -> (r: Option<TxHash>)
    ensures
        match r {
            Some(h) => hex_decode(b@) == Some(h.bytes@),
            None => !(hex_decode(b@) matches Some(v) && v.len() == 32),
        },
{
    match decode_fixed::<32>(b) {
        Some(bytes) => Some(TxHash { bytes }),
        None => None,
    }
}

/// Whether `c` is an ASCII decimal digit.
pub open spec fn is_digit(c: u8) -> bool {
    48 <= c <= 57
}

/// The number that a string of decimal digits spells.
pub open spec fn decimal_value(d: Seq<u8>) -> nat
    decreases d.len(),
{
    if d.len() == 0 {
        0
    } else {
        decimal_value(d.drop_last()) * 10 + (d.last() - 48) as nat
    }
}

/// 2^256, one more than the largest token amount.
pub open spec fn two_pow_256() -> nat {
    two_pow_128() * two_pow_128()
}

/// The amount that a decimal text spells: one or more digits whose value is
/// below 2^256.
pub open spec fn decimal_amount(b: Seq<u8>) -> Option<nat> {
    if b.len() > 0 && (forall|i: int| 0 <= i < b.len() ==> #[trigger] is_digit(b[i]))
        && decimal_value(b) < two_pow_256() {
        Some(decimal_value(b))
    } else {
        None
    }
}

/// Adding digits never makes a number of digits smaller.
proof fn lemma_decimal_prefix_grows(b: Seq<u8>, j: int)
    requires
        0 <= j <= b.len(),
        forall|i: int| 0 <= i < b.len() ==> #[trigger] is_digit(b[i]),
    ensures
        decimal_value(b.subrange(0, j)) <= decimal_value(b),
    decreases b.len() - j,
{
    if j < b.len() {
        let c = b.subrange(0, j + 1);
        assert(c.drop_last() =~= b.subrange(0, j));
        assert(is_digit(b[j]));
        lemma_decimal_prefix_grows(b, j + 1);
    } else {
        assert(b.subrange(0, j) =~= b);
    }
}

/// `a * 10 + d`, or `None` where that reaches 2^256.
fn times_ten_plus(a: TokenAmount, d: u8) -> (r: Option<TokenAmount>)
    requires
        d < 10,
    ensures
        match r {
            Some(x) => x.value() == a.value() * 10 + d,
            None => a.value() * 10 + d >= two_pow_256(),
        },
{
    let p64: u128 = 0x1_0000_0000_0000_0000;
    let l0 = a.low % p64;
    let l1 = a.low / p64;
    proof {
        lemma_fundamental_div_mod(a.low as int, p64 as int);
        assert(l1 < p64) by (nonlinear_arith)
            requires
                l1 == a.low / p64,
                a.low < p64 * p64,
                p64 > 0,
        ;
    }
    let t0 = l0 * 10 + d as u128;
    let c0 = t0 / p64;
    proof {
        lemma_fundamental_div_mod(t0 as int, p64 as int);
        assert(c0 <= 10) by (nonlinear_arith)
            requires
                c0 == t0 / p64,
                t0 < 11 * p64,
                p64 > 0,
        ;
    }
    let t1 = l1 * 10 + c0;
    let carry = t1 / p64;
    proof {
        lemma_fundamental_div_mod(t1 as int, p64 as int);
        assert(carry <= 10) by (nonlinear_arith)
            requires
                carry == t1 / p64,
                t1 < 11 * p64,
                p64 > 0,
        ;
    }
    let m1 = t1 % p64;
    let m0 = t0 % p64;
    assert(m1 * p64 + m0 < p64 * p64) by (nonlinear_arith)
        requires
            m1 < p64,
            m0 < p64,
    ;
    let new_low = m1 * p64 + m0;
    let ghost big = two_pow_128() as int;
    assert(big == p64 * p64);
    assert(a.low * 10 + d == carry * big + new_low) by (nonlinear_arith)
        requires
            a.low == p64 * l1 + l0,
            t0 == l0 * 10 + d,
            t0 == p64 * c0 + m0,
            t1 == l1 * 10 + c0,
            t1 == p64 * carry + m1,
            new_low == m1 * p64 + m0,
            big == p64 * p64,
    ;
    assert(a.value() * 10 + d == (a.high * 10 + carry) * big + new_low) by (nonlinear_arith)
        requires
            a.value() == a.high * big + a.low,
            a.low * 10 + d == carry * big + new_low,
    ;
    if a.high > (u128::MAX - carry) / 10 {
        assert((a.high * 10 + carry) * big + new_low >= big * big) by (nonlinear_arith)
            requires
                a.high > (u128::MAX - carry) / 10,
                u128::MAX + 1 == big,
                carry <= 10,
                new_low >= 0,
                big > 0,
        ;
        return None;
    }
    assert(a.high * 10 + carry <= u128::MAX) by (nonlinear_arith)
        requires
            a.high <= (u128::MAX - carry) / 10,
            carry <= 10,
    ;
    Some(TokenAmount { high: a.high * 10 + carry, low: new_low })
}

/// Decodes a decimal token amount.
pub fn parse_amount(b: &[u8]) -> (r: Option<TokenAmount>)
    ensures
        match r {
            Some(a) => decimal_amount(b@) == Some(a.value()),
            None => decimal_amount(b@) is None,
        },
{
    if b.len() == 0 {
        return None;
    }
    let mut acc = TokenAmount { high: 0, low: 0 };
    let mut i: usize = 0;
    assert(b@.subrange(0, 0).len() == 0);
    while i < b.len()
        invariant
            i <= b@.len(),
            b@.len() > 0,
            forall|j: int| 0 <= j < i ==> #[trigger] is_digit(b@[j]),
            acc.value() == decimal_value(b@.subrange(0, i as int)),
        decreases b@.len() - i,
    {
        let c = b[i];
        if !(48 <= c && c <= 57) {
            assert(!is_digit(b@[i as int]));
            return None;
        }
        let next = times_ten_plus(acc, c - 48);
        assert(b@.subrange(0, i + 1).drop_last() =~= b@.subrange(0, i as int));
        match next {
            Some(x) => {
                acc = x;
                i = i + 1;
            },
            None => {
                proof {
                    if forall|j: int| 0 <= j < b@.len() ==> #[trigger] is_digit(b@[j]) {
                        lemma_decimal_prefix_grows(b@, i + 1);
                    }
                }
                return None;
            },
        }
    }
    assert(b@.subrange(0, b@.len() as int) =~= b@);
    proof {
        assert(acc.value() < two_pow_256()) by (nonlinear_arith)
            requires
                acc.value() == acc.high * two_pow_128() + acc.low,
                acc.high < two_pow_128(),
                acc.low < two_pow_128(),
        ;
    }
    Some(acc)
}

/// The lower-case ASCII hex digit of a value below 16.
pub open spec fn hex_char(v: u8) -> u8 {
    if v < 10 {
        (48 + v) as u8
    } else {
        (87 + v) as u8
    }
}

/// `0x`, then two lower-case hex digits per byte, the high nibble first.
pub open spec fn hex_encode(b: Seq<u8>) -> Seq<u8> {
    seq![48u8, 120u8] + Seq::new(
        2 * b.len(),
        |i: int|
            if i % 2 == 0 {
                hex_char(b[i / 2] / 16)
            } else {
                hex_char(b[i / 2] % 16)
            },
    )
}

fn hex_digit_char(v: u8) -> (c: u8)
    requires
        v < 16,
    ensures
        c == hex_char(v),
{
    if v < 10 {
        48 + v
    } else {
        87 + v
    }
}

/// Encodes bytes as `0x`-prefixed lower-case hex text.
pub fn encode_hex(b: &[u8]) -> (r: Vec<u8>)
    ensures
        r@ == hex_encode(b@),
{
    let mut out: Vec<u8> = Vec::new();
    out.push(48u8);
    out.push(120u8);
    let mut i: usize = 0;
    while i < b.len()
        invariant
            i <= b@.len(),
            out@.len() == 2 + 2 * i,
            out@[0] == 48u8,
            out@[1] == 120u8,
            forall|j: int|
                0 <= j < 2 * i ==> #[trigger] out@[j + 2] == (if j % 2 == 0 {
                    hex_char(b@[j / 2] / 16)
                } else {
                    hex_char(b@[j / 2] % 16)
                }),
        decreases b@.len() - i,
    {
        let v = b[i];
        out.push(hex_digit_char(v / 16));
        out.push(hex_digit_char(v % 16));
        i = i + 1;
    }
    assert forall|k: int| 2 <= k < out@.len() implies out@[k] == hex_encode(b@)[k] by {
        let j = k - 2;
        assert(out@[j + 2] == out@[k]);
    }
    assert(out@ =~= hex_encode(b@));
    out
}

/// Decoding what `encode_hex` wrote gives back the bytes.
pub proof fn lemma_hex_round_trip(b: Seq<u8>)
    ensures
        hex_decode(hex_encode(b)) == Some(b),
{
    let e = hex_encode(b);
    let d = strip_0x(e);
    assert(d =~= e.subrange(2, e.len() as int));
    assert forall|i: int| 0 <= i < d.len() implies (#[trigger] hex_value(d[i])) is Some by {
        assert(d[i] == e[i + 2]);
    }
    assert forall|i: int| 0 <= i < b.len() implies #[trigger] hex_pair(d, i) == b[i] by {
        assert(d[2 * i] == e[2 * i + 2]);
        assert(d[2 * i + 1] == e[2 * i + 3]);
        assert((2 * i) % 2 == 0 && (2 * i) / 2 == i);
        assert((2 * i + 1) % 2 == 1 && (2 * i + 1) / 2 == i);
        let x = b[i];
        assert(x == (x / 16) * 16 + x % 16);
    }
    assert(Seq::new(d.len() / 2, |i: int| hex_pair(d, i)) =~= b);
}

} // verus!
