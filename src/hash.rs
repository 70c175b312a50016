//! A stable 64-bit content hash (FNV-1a) and its fixed-width big-endian form.
use vstd::prelude::*;

verus! {

pub const FNV_OFFSET_BASIS: u64 = 0xcbf29ce484222325;

pub const FNV_PRIME: u64 = 0x100000001b3;

/// FNV-1a over a byte sequence, folding from the first byte to the last.
pub open spec fn fnv1a(bytes: Seq<u8>) -> u64
    decreases bytes.len(),
{
    if bytes.len() == 0 {
        FNV_OFFSET_BASIS
    } else {
        vstd::wrapping::u64_specs::wrapping_mul(
            fnv1a(bytes.drop_last()) ^ (bytes.last() as u64),
            FNV_PRIME,
        )
    }
}

/// Hashes a byte slice with FNV-1a. The result depends on the bytes alone,
/// so it is the same in every process and on every machine.
pub fn stable_hash_bytes(bytes: &[u8]) -> (h: u64)
    ensures
        h == fnv1a(bytes@),
{
    let mut h: u64 = FNV_OFFSET_BASIS;
    let mut i: usize = 0;
    while i < bytes.len()
        invariant
            i <= bytes@.len(),
            h == fnv1a(bytes@.subrange(0, i as int)),
        decreases bytes@.len() - i,
    {
        assert(bytes@.subrange(0, i as int + 1).drop_last() =~= bytes@.subrange(0, i as int));
        h = (h ^ (bytes[i] as u64)).wrapping_mul(FNV_PRIME);
        i = i + 1;
    }
    assert(bytes@.subrange(0, bytes@.len() as int) =~= bytes@);
    h
}

/// The eight bytes of `h`, most significant first.
pub open spec fn be_bytes(h: u64) -> Seq<u8> {
    seq![
        (h >> 56u64) as u8,
        (h >> 48u64) as u8,
        (h >> 40u64) as u8,
        (h >> 32u64) as u8,
        (h >> 24u64) as u8,
        (h >> 16u64) as u8,
        (h >> 8u64) as u8,
        h as u8,
    ]
}

/// The value of eight bytes read most significant first.
pub open spec fn be_value(b: Seq<u8>) -> u64
    recommends
        b.len() == 8,
{
    ((b[0] as u64) << 56u64) | ((b[1] as u64) << 48u64) | ((b[2] as u64) << 40u64) | ((
    b[3] as u64) << 32u64) | ((b[4] as u64) << 24u64) | ((b[5] as u64) << 16u64) | ((
    b[6] as u64) << 8u64) | (b[7] as u64)
}

/// Reading back the big-endian bytes of a value gives the value.
pub proof fn lemma_be_round_trip(h: u64)
    ensures
        be_value(be_bytes(h)) == h,
{
    let b = be_bytes(h);
    assert(b[0] == (h >> 56u64) as u8);
    assert(b[7] == h as u8);
    assert(h == ((((h >> 56u64) as u8) as u64) << 56u64) | ((((h >> 48u64) as u8) as u64)
        << 48u64) | ((((h >> 40u64) as u8) as u64) << 40u64) | ((((h >> 32u64) as u8) as u64)
        << 32u64) | ((((h >> 24u64) as u8) as u64) << 24u64) | ((((h >> 16u64) as u8) as u64)
        << 16u64) | ((((h >> 8u64) as u8) as u64) << 8u64) | ((h as u8) as u64)) by (bit_vector);
}

/// Writes `h` as eight bytes, most significant first.
pub fn hash_to_be_bytes(h: u64) -> (r: Vec<u8>)
    ensures
        r@ == be_bytes(h),
{
    let r: Vec<u8> = vec![
        (h >> 56u64) as u8,
        (h >> 48u64) as u8,
        (h >> 40u64) as u8,
        (h >> 32u64) as u8,
        (h >> 24u64) as u8,
        (h >> 16u64) as u8,
        (h >> 8u64) as u8,
        h as u8,
    ];
    assert(r@ =~= be_bytes(h));
    r
}

/// Reads eight bytes, most significant first; any other length is no hash.
pub fn hash_from_be_bytes(b: &[u8]) -> (r: Option<u64>)
    ensures
        r == (if b@.len() == 8 {
            Some(be_value(b@))
        } else {
            None::<u64>
        }),
{
    if b.len() != 8 {
        return None;
    }
    Some(((b[0] as u64) << 56u64) | ((b[1] as u64) << 48u64) | ((b[2] as u64) << 40u64) | ((
    b[3] as u64) << 32u64) | ((b[4] as u64) << 24u64) | ((b[5] as u64) << 16u64) | ((
    b[6] as u64) << 8u64) | (b[7] as u64))
}

} // verus!
