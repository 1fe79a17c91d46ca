use vstd::prelude::*;

verus! {

/// The eight little-endian bytes of `n`, least significant first.
pub open spec fn le_bytes(n: u64) -> Seq<u8> {
    seq![
        n as u8,
        (n >> 8u64) as u8,
        (n >> 16u64) as u8,
        (n >> 24u64) as u8,
        (n >> 32u64) as u8,
        (n >> 40u64) as u8,
        (n >> 48u64) as u8,
        (n >> 56u64) as u8,
    ]
}

/// The number whose little-endian encoding is the eight bytes `s`.
pub open spec fn le_value(s: Seq<u8>) -> u64
    recommends
        s.len() == 8,
{
    (s[0] as u64) | ((s[1] as u64) << 8u64) | ((s[2] as u64) << 16u64) | ((s[3] as u64) << 24u64)
        | ((s[4] as u64) << 32u64) | ((s[5] as u64) << 40u64) | ((s[6] as u64) << 48u64) | ((
    s[7] as u64) << 56u64)
}

/// Decoding the encoding of a number gives the number back.
pub proof fn lemma_le_round_trip(n: u64)
    ensures
        le_value(le_bytes(n)) == n,
{
    let s = le_bytes(n);
    assert(((n as u8) as u64) | (((n >> 8u64) as u8 as u64) << 8u64) | (((n >> 16u64) as u8 as u64)
        << 16u64) | (((n >> 24u64) as u8 as u64) << 24u64) | (((n >> 32u64) as u8 as u64) << 32u64)
        | (((n >> 40u64) as u8 as u64) << 40u64) | (((n >> 48u64) as u8 as u64) << 48u64) | (((n
        >> 56u64) as u8 as u64) << 56u64) == n) by (bit_vector);
}

/// Distinct numbers have distinct encodings.
pub proof fn lemma_le_injective(a: u64, b: u64)
    requires
        a != b,
    ensures
        le_bytes(a) != le_bytes(b),
{
    lemma_le_round_trip(a);
    lemma_le_round_trip(b);
}

/// Encodes `n` as eight little-endian bytes.
pub fn encode_le(n: u64) -> (r: Vec<u8>)
    ensures
        r@ == le_bytes(n),
{
    let r = vec![
        n as u8,
        (n >> 8u64) as u8,
        (n >> 16u64) as u8,
        (n >> 24u64) as u8,
        (n >> 32u64) as u8,
        (n >> 40u64) as u8,
        (n >> 48u64) as u8,
        (n >> 56u64) as u8,
    ];
    assert(r@ =~= le_bytes(n));
    r
}

/// Reads a number from eight little-endian bytes; `None` when `b` is not eight bytes long.
pub fn decode_le(b: &[u8]) -> (r: Option<u64>)
    ensures
        r == (if b@.len() == 8 {
            Some(le_value(b@))
        } else {
            None::<u64>
        }),
{
    if b.len() != 8 {
        return None;
    }
    Some((b[0] as u64) | ((b[1] as u64) << 8u64) | ((b[2] as u64) << 16u64) | ((b[3] as u64)
        << 24u64) | ((b[4] as u64) << 32u64) | ((b[5] as u64) << 40u64) | ((b[6] as u64) << 48u64)
        | ((b[7] as u64) << 56u64))
}

} // verus!
