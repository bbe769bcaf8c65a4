//! Canonical encoding primitives.
//!
//! Action payloads are serialized field by field: unsigned integers in
//! little-endian order at their fixed width, byte strings with a 32-bit
//! length prefix, optional fields with a one-byte presence marker. The
//! same bytes are produced for the same value on every platform, and the
//! prefix lemmas below show that no two distinct values share an encoding:
//! both signer and verifier can therefore hash and sign these bytes.

use vstd::prelude::*;
use vstd::bytes::*;

verus! {

/// Encoding of a `u8`: the byte itself.
pub open spec fn enc_u8(x: u8) -> Seq<u8> {
    seq![x]
}

/// Encoding of a `u16`: two bytes, little endian.
pub open spec fn enc_u16(x: u16) -> Seq<u8> {
    spec_u16_to_le_bytes(x)
}

/// Encoding of a `u32`: four bytes, little endian.
pub open spec fn enc_u32(x: u32) -> Seq<u8> {
    spec_u32_to_le_bytes(x)
}

/// Encoding of a `u64`: eight bytes, little endian.
pub open spec fn enc_u64(x: u64) -> Seq<u8> {
    spec_u64_to_le_bytes(x)
}

/// Encoding of a `u128`: sixteen bytes, little endian.
pub open spec fn enc_u128(x: u128) -> Seq<u8> {
    spec_u128_to_le_bytes(x)
}

/// Encoding of a value carried in a 32-byte wire slot: sixteen
/// little-endian bytes and a zero high half. The contracts model these
/// values at 128 bits; the slot keeps its full width on the wire.
pub open spec fn enc_u256(x: u128) -> Seq<u8> {
    spec_u128_to_le_bytes(x) + Seq::new(16, |i: int| 0u8)
}

/// Encoding of a byte string: a 32-bit length prefix, then the bytes.
pub open spec fn enc_bytes(s: Seq<u8>) -> Seq<u8>
    recommends
        s.len() <= u32::MAX,
{
    spec_u32_to_le_bytes(s.len() as u32) + s
}

/// Encoding of an optional byte string: `0` for absent, `1` followed by
/// the string's encoding for present.
#[verifier::opaque]
pub open spec fn enc_opt_bytes(o: Option<Seq<u8>>) -> Seq<u8> {
    match o {
        Option::None => seq![0u8],
        Option::Some(s) => seq![1u8] + enc_bytes(s),
    }
}

/// Encoding of an optional `u64`.
#[verifier::opaque]
pub open spec fn enc_opt_u64(o: Option<u64>) -> Seq<u8> {
    match o {
        Option::None => seq![0u8],
        Option::Some(x) => seq![1u8] + enc_u64(x),
    }
}

/// The view of an optional byte vector as an optional byte sequence.
pub open spec fn opt_view(o: Option<Vec<u8>>) -> Option<Seq<u8>> {
    match o {
        Option::None => Option::None,
        Option::Some(v) => Option::Some(v@),
    }
}

/// Whether an optional byte vector fits behind a 32-bit length prefix.
pub open spec fn opt_fits(o: Option<Seq<u8>>) -> bool {
    match o {
        Option::None => true,
        Option::Some(s) => s.len() <= u32::MAX,
    }
}

/// Appends all of `data` to `out`.
pub fn push_all(out: &mut Vec<u8>, data: &Vec<u8>)
    ensures
        final(out)@ == old(out)@ + data@,
{
    let mut i: usize = 0;
    while i < data.len()
        invariant
            i <= data@.len(),
            out@ == old(out)@ + data@.take(i as int),
        decreases data@.len() - i,
    {
        out.push(data[i]);
        proof {
            assert(old(out)@ + data@.take(i + 1 as int) =~= (old(out)@ + data@.take(
                i as int,
            )).push(data@[i as int]));
        }
        i += 1;
    }
    proof {
        assert(data@.take(data@.len() as int) =~= data@);
    }
}

/// Appends a fixed 32-byte key to `out`.
pub fn push_key(out: &mut Vec<u8>, key: &[u8; 32])
    ensures
        final(out)@ == old(out)@ + key@,
{
    let mut i: usize = 0;
    while i < 32
        invariant
            i <= 32,
            key@.len() == 32,
            out@ == old(out)@ + key@.take(i as int),
        decreases 32 - i,
    {
        out.push(key[i]);
        proof {
            assert(old(out)@ + key@.take(i + 1 as int) =~= (old(out)@ + key@.take(
                i as int,
            )).push(key@[i as int]));
        }
        i += 1;
    }
    proof {
        assert(key@.take(32) =~= key@);
    }
}

/// Appends the encoding of a `u8`.
pub fn push_u8(out: &mut Vec<u8>, x: u8)
    ensures
        final(out)@ == old(out)@ + enc_u8(x),
{
    out.push(x);
    proof {
        assert(old(out)@ + enc_u8(x) =~= old(out)@.push(x));
    }
}

/// Appends the encoding of a `u16`.
pub fn push_u16(out: &mut Vec<u8>, x: u16)
    ensures
        final(out)@ == old(out)@ + enc_u16(x),
{
    let mut t = u16_to_le_bytes(x);
    out.append(&mut t);
}

/// Appends the encoding of a `u32`.
pub fn push_u32(out: &mut Vec<u8>, x: u32)
    ensures
        final(out)@ == old(out)@ + enc_u32(x),
{
    let mut t = u32_to_le_bytes(x);
    out.append(&mut t);
}

/// Appends the encoding of a `u64`.
pub fn push_u64(out: &mut Vec<u8>, x: u64)
    ensures
        final(out)@ == old(out)@ + enc_u64(x),
{
    let mut t = u64_to_le_bytes(x);
    out.append(&mut t);
}

/// Appends the encoding of a `u128`.
pub fn push_u128(out: &mut Vec<u8>, x: u128)
    ensures
        final(out)@ == old(out)@ + enc_u128(x),
{
    let mut t = u128_to_le_bytes(x);
    out.append(&mut t);
}

/// Appends the encoding of a 256-bit value whose high half is zero.
pub fn push_u256(out: &mut Vec<u8>, x: u128)
    ensures
        final(out)@ == old(out)@ + enc_u256(x),
{
    let ghost mid = out@ + enc_u128(x);
    push_u128(out, x);
    let mut i: usize = 0;
    while i < 16
        invariant
            i <= 16,
            out@ == mid + Seq::new(i as nat, |j: int| 0u8),
        decreases 16 - i,
    {
        out.push(0u8);
        proof {
            assert(mid + Seq::new((i + 1) as nat, |j: int| 0u8) =~= (mid + Seq::new(
                i as nat,
                |j: int| 0u8,
            )).push(0u8));
        }
        i += 1;
    }
    proof {
        assert(out@ =~= old(out)@ + enc_u256(x));
    }
}

/// Appends the encoding of a byte string.
pub fn push_bytes(out: &mut Vec<u8>, data: &Vec<u8>)
    requires
        data@.len() <= u32::MAX,
    ensures
        final(out)@ == old(out)@ + enc_bytes(data@),
{
    push_u32(out, data.len() as u32);
    push_all(out, data);
    proof {
        assert(old(out)@ + enc_bytes(data@) =~= old(out)@ + enc_u32(data@.len() as u32) + data@);
    }
}

/// Appends the encoding of an optional byte string.
pub fn push_opt_bytes(out: &mut Vec<u8>, o: &Option<Vec<u8>>)
    requires
        opt_fits(opt_view(*o)),
    ensures
        final(out)@ == old(out)@ + enc_opt_bytes(opt_view(*o)),
{
    proof {
        reveal(enc_opt_bytes);
    }
    match o {
        Option::None => {
            out.push(0u8);
            proof {
                reveal(enc_opt_bytes);
                assert(old(out)@ + enc_opt_bytes(opt_view(*o)) =~= old(out)@.push(0u8));
            }
        },
        Option::Some(v) => {
            out.push(1u8);
            push_bytes(out, v);
            proof {
                reveal(enc_opt_bytes);
                assert(old(out)@ + enc_opt_bytes(opt_view(*o)) =~= old(out)@.push(1u8)
                    + enc_bytes(v@));
            }
        },
    }
}

/// Appends the encoding of an optional `u64`.
pub fn push_opt_u64(out: &mut Vec<u8>, o: &Option<u64>)
    ensures
        final(out)@ == old(out)@ + enc_opt_u64(*o),
{
    proof {
        reveal(enc_opt_u64);
    }
    match o {
        Option::None => {
            out.push(0u8);
            proof {
                reveal(enc_opt_u64);
                assert(old(out)@ + enc_opt_u64(*o) =~= old(out)@.push(0u8));
            }
        },
        Option::Some(x) => {
            out.push(1u8);
            push_u64(out, *x);
            proof {
                reveal(enc_opt_u64);
                assert(old(out)@ + enc_opt_u64(*o) =~= old(out)@.push(1u8) + enc_u64(*x));
            }
        },
    }
}

/// Two concatenations with equally long first parts are equal part by part.
pub proof fn lemma_concat_split(s1: Seq<u8>, t1: Seq<u8>, s2: Seq<u8>, t2: Seq<u8>)
    requires
        s1.len() == s2.len(),
        s1 + t1 == s2 + t2,
    ensures
        s1 == s2,
        t1 == t2,
{
    assert forall|i: int| 0 <= i < s1.len() implies s1[i] == s2[i] by {
        assert((s1 + t1)[i] == s1[i]);
        assert((s2 + t2)[i] == s2[i]);
    }
    assert(s1 =~= s2);
    assert((s1 + t1).len() == s1.len() + t1.len());
    assert((s2 + t2).len() == s2.len() + t2.len());
    assert(t1.len() == t2.len());
    assert forall|i: int| 0 <= i < t1.len() implies t1[i] == t2[i] by {
        assert(0 <= s2.len() + i < (s2 + t2).len());
        assert((s1 + t1)[s1.len() + i] == t1[i]);
        assert((s2 + t2)[s2.len() + i] == t2[i]);
    }
    assert(t1 =~= t2);
}

/// A `u8` field determines itself and the remainder of the message.
pub proof fn lemma_prefix_u8(a: u8, b: u8, ra: Seq<u8>, rb: Seq<u8>)
    requires
        enc_u8(a) + ra == enc_u8(b) + rb,
    ensures
        a == b,
        ra == rb,
{
    lemma_concat_split(enc_u8(a), ra, enc_u8(b), rb);
    assert(enc_u8(a)[0] == a && enc_u8(b)[0] == b);
}

/// A `u16` field determines itself and the remainder of the message.
pub proof fn lemma_prefix_u16(a: u16, b: u16, ra: Seq<u8>, rb: Seq<u8>)
    requires
        enc_u16(a) + ra == enc_u16(b) + rb,
    ensures
        a == b,
        ra == rb,
{
    lemma_auto_spec_u16_to_from_le_bytes();
    lemma_concat_split(enc_u16(a), ra, enc_u16(b), rb);
}

/// A `u32` field determines itself and the remainder of the message.
pub proof fn lemma_prefix_u32(a: u32, b: u32, ra: Seq<u8>, rb: Seq<u8>)
    requires
        enc_u32(a) + ra == enc_u32(b) + rb,
    ensures
        a == b,
        ra == rb,
{
    lemma_auto_spec_u32_to_from_le_bytes();
    lemma_concat_split(enc_u32(a), ra, enc_u32(b), rb);
}

/// A `u64` field determines itself and the remainder of the message.
pub proof fn lemma_prefix_u64(a: u64, b: u64, ra: Seq<u8>, rb: Seq<u8>)
    requires
        enc_u64(a) + ra == enc_u64(b) + rb,
    ensures
        a == b,
        ra == rb,
{
    lemma_auto_spec_u64_to_from_le_bytes();
    lemma_concat_split(enc_u64(a), ra, enc_u64(b), rb);
}

/// A `u128` field determines itself and the remainder of the message.
pub proof fn lemma_prefix_u128(a: u128, b: u128, ra: Seq<u8>, rb: Seq<u8>)
    requires
        enc_u128(a) + ra == enc_u128(b) + rb,
    ensures
        a == b,
        ra == rb,
{
    lemma_auto_spec_u128_to_from_le_bytes();
    lemma_concat_split(enc_u128(a), ra, enc_u128(b), rb);
}

/// A 256-bit field determines itself and the remainder of the message.
pub proof fn lemma_prefix_u256(a: u128, b: u128, ra: Seq<u8>, rb: Seq<u8>)
    requires
        enc_u256(a) + ra == enc_u256(b) + rb,
    ensures
        a == b,
        ra == rb,
{
    lemma_auto_spec_u128_to_from_le_bytes();
    lemma_concat_split(enc_u256(a), ra, enc_u256(b), rb);
    lemma_concat_split(
        spec_u128_to_le_bytes(a),
        Seq::new(16, |i: int| 0u8),
        spec_u128_to_le_bytes(b),
        Seq::new(16, |i: int| 0u8),
    );
}

/// A length-prefixed byte string determines itself and the remainder of the
/// message.
pub proof fn lemma_prefix_bytes(a: Seq<u8>, b: Seq<u8>, ra: Seq<u8>, rb: Seq<u8>)
    requires
        a.len() <= u32::MAX,
        b.len() <= u32::MAX,
        enc_bytes(a) + ra == enc_bytes(b) + rb,
    ensures
        a == b,
        ra == rb,
{
    assert(enc_bytes(a) + ra =~= enc_u32(a.len() as u32) + (a + ra));
    assert(enc_bytes(b) + rb =~= enc_u32(b.len() as u32) + (b + rb));
    lemma_prefix_u32(a.len() as u32, b.len() as u32, a + ra, b + rb);
    lemma_concat_split(a, ra, b, rb);
}

/// An optional byte string determines itself and the remainder of the
/// message.
pub proof fn lemma_prefix_opt_bytes(
    a: Option<Seq<u8>>,
    b: Option<Seq<u8>>,
    ra: Seq<u8>,
    rb: Seq<u8>,
)
    requires
        opt_fits(a),
        opt_fits(b),
        enc_opt_bytes(a) + ra == enc_opt_bytes(b) + rb,
    ensures
        a == b,
        ra == rb,
{
    reveal(enc_opt_bytes);
    match (a, b) {
        (Option::None, Option::None) => {
            lemma_concat_split(enc_opt_bytes(a), ra, enc_opt_bytes(b), rb);
        },
        (Option::None, Option::Some(sb)) => {
            assert((enc_opt_bytes(a) + ra)[0] == 0u8);
            assert((enc_opt_bytes(b) + rb)[0] == 1u8);
        },
        (Option::Some(sa), Option::None) => {
            assert((enc_opt_bytes(a) + ra)[0] == 1u8);
            assert((enc_opt_bytes(b) + rb)[0] == 0u8);
        },
        (Option::Some(sa), Option::Some(sb)) => {
            assert(enc_opt_bytes(a) + ra =~= seq![1u8] + (enc_bytes(sa) + ra));
            assert(enc_opt_bytes(b) + rb =~= seq![1u8] + (enc_bytes(sb) + rb));
            lemma_concat_split(seq![1u8], enc_bytes(sa) + ra, seq![1u8], enc_bytes(sb) + rb);
            lemma_prefix_bytes(sa, sb, ra, rb);
        },
    }
}

/// An optional `u64` determines itself and the remainder of the message.
pub proof fn lemma_prefix_opt_u64(a: Option<u64>, b: Option<u64>, ra: Seq<u8>, rb: Seq<u8>)
    requires
        enc_opt_u64(a) + ra == enc_opt_u64(b) + rb,
    ensures
        a == b,
        ra == rb,
{
    reveal(enc_opt_u64);
    match (a, b) {
        (Option::None, Option::None) => {
            lemma_concat_split(enc_opt_u64(a), ra, enc_opt_u64(b), rb);
        },
        (Option::None, Option::Some(xb)) => {
            assert((enc_opt_u64(a) + ra)[0] == 0u8);
            assert((enc_opt_u64(b) + rb)[0] == 1u8);
        },
        (Option::Some(xa), Option::None) => {
            assert((enc_opt_u64(a) + ra)[0] == 1u8);
            assert((enc_opt_u64(b) + rb)[0] == 0u8);
        },
        (Option::Some(xa), Option::Some(xb)) => {
            assert(enc_opt_u64(a) + ra =~= seq![1u8] + (enc_u64(xa) + ra));
            assert(enc_opt_u64(b) + rb =~= seq![1u8] + (enc_u64(xb) + rb));
            lemma_concat_split(seq![1u8], enc_u64(xa) + ra, seq![1u8], enc_u64(xb) + rb);
            lemma_prefix_u64(xa, xb, ra, rb);
        },
    }
}

} // verus!
