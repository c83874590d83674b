//! The proof verifier: a pure, deterministic, total check of a compute proof
//! against a claimed result and the task's requirements.
//!
//! Every reward payout is gated on this check, so its contract is the trust
//! boundary of the marketplace. The proof scheme itself is pluggable; the one
//! implemented here is a digest commitment: a proof is accepted exactly when
//! it equals the 64-bit FNV-1a digest of the requirements followed by the
//! result, in little-endian bytes. Any malformed or tampered proof simply
//! compares unequal and is rejected — rejection is a verdict, never a fault.

use vstd::prelude::*;

verus! {

/// Offset basis of the 64-bit FNV-1a hash.
pub const FNV_OFFSET_BASIS: u64 = 0xcbf2_9ce4_8422_2325;

/// Multiplier of the 64-bit FNV-1a hash.
pub const FNV_PRIME: u64 = 0x0000_0100_0000_01b3;

/// One FNV-1a round: fold the next byte into the running digest.
pub open spec fn fnv1a_step(h: u64, b: u8) -> u64 {
    ((((h ^ (b as u64)) as int) * (FNV_PRIME as int)) % 0x1_0000_0000_0000_0000) as u64
}

/// The 64-bit FNV-1a digest of a byte sequence.
pub open spec fn fnv1a(bytes: Seq<u8>) -> u64
    decreases bytes.len(),
{
    if bytes.len() == 0 {
        FNV_OFFSET_BASIS
    } else {
        fnv1a_step(fnv1a(bytes.drop_last()), bytes.last())
    }
}

/// The eight little-endian bytes of a 64-bit value.
pub open spec fn u64_le_bytes(h: u64) -> Seq<u8> {
    seq![
        (h & 0xff) as u8,
        ((h >> 8) & 0xff) as u8,
        ((h >> 16) & 0xff) as u8,
        ((h >> 24) & 0xff) as u8,
        ((h >> 32) & 0xff) as u8,
        ((h >> 40) & 0xff) as u8,
        ((h >> 48) & 0xff) as u8,
        ((h >> 56) & 0xff) as u8,
    ]
}

/// The one proof that attests `result_bytes` under `requirements`: the
/// little-endian digest of the requirements followed by the result.
pub open spec fn expected_proof(result_bytes: Seq<u8>, requirements: Seq<u8>) -> Seq<u8> {
    u64_le_bytes(fnv1a(requirements + result_bytes))
}

/// Whether a submitted compute proof is accepted for a result under the given
/// requirements.
pub open spec fn computation_verified(
    compute_proof: Seq<u8>,
    result_bytes: Seq<u8>,
    requirements: Seq<u8>,
) -> bool {
    compute_proof == expected_proof(result_bytes, requirements)
}

/// Extending the hashed sequence by one byte runs one more round.
proof fn lemma_fnv1a_snoc(s: Seq<u8>, b: u8)
    ensures
        fnv1a(s.push(b)) == fnv1a_step(fnv1a(s), b),
{
    assert(s.push(b).drop_last() =~= s);
    assert(s.push(b).last() == b);
}

/// One exec FNV-1a round, proved equal to `fnv1a_step`.
fn fnv1a_step_exec(h: u64, b: u8) -> (r: u64)
    ensures
        r == fnv1a_step(h, b),
{
    let x: u64 = h ^ (b as u64);
    proof {
        assert((x as int) * (FNV_PRIME as int) <= 0xffff_ffff_ffff_ffff * 0x0000_0100_0000_01b3)
            by (nonlinear_arith)
            requires x <= 0xffff_ffff_ffff_ffff;
        assert((x as int) * (FNV_PRIME as int) >= 0) by (nonlinear_arith)
            requires x >= 0;
    }
    let wide: u128 = (x as u128) * (FNV_PRIME as u128);
    (wide % 0x1_0000_0000_0000_0000u128) as u64
}

/// The digest of two byte strings hashed as one, requirements first.
fn fnv1a_concat(first: &Vec<u8>, second: &Vec<u8>) -> (h: u64)
    ensures
        h == fnv1a(first@ + second@),
{
    let mut h: u64 = FNV_OFFSET_BASIS;
    let mut i: usize = 0;
    proof {
        assert(first@.take(0) =~= Seq::<u8>::empty());
    }
    while i < first.len()
        invariant
            i <= first.len(),
            h == fnv1a(first@.take(i as int)),
        decreases first.len() - i,
    {
        proof {
            assert(first@.take(i + 1) =~= first@.take(i as int).push(first@[i as int]));
            lemma_fnv1a_snoc(first@.take(i as int), first@[i as int]);
        }
        h = fnv1a_step_exec(h, first[i]);
        i = i + 1;
    }
    proof {
        assert(first@.take(first@.len() as int) =~= first@);
        assert((first@ + second@.take(0)) =~= first@);
    }
    let mut j: usize = 0;
    while j < second.len()
        invariant
            j <= second.len(),
            h == fnv1a(first@ + second@.take(j as int)),
        decreases second.len() - j,
    {
        proof {
            assert((first@ + second@.take(j + 1)) =~= (first@ + second@.take(j as int)).push(
                second@[j as int],
            ));
            lemma_fnv1a_snoc(first@ + second@.take(j as int), second@[j as int]);
        }
        h = fnv1a_step_exec(h, second[j]);
        j = j + 1;
    }
    proof {
        assert((first@ + second@.take(second@.len() as int)) =~= (first@ + second@));
    }
    h
}

/// Every byte pulled out of a 64-bit value by shift and mask fits in `u8`.
proof fn lemma_byte_masks(h: u64)
    ensures
        h & 0xff < 256,
        (h >> 8) & 0xff < 256,
        (h >> 16) & 0xff < 256,
        (h >> 24) & 0xff < 256,
        (h >> 32) & 0xff < 256,
        (h >> 40) & 0xff < 256,
        (h >> 48) & 0xff < 256,
        (h >> 56) & 0xff < 256,
{
    assert(h & 0xff < 256 && (h >> 8) & 0xff < 256 && (h >> 16) & 0xff < 256 && (h >> 24) & 0xff
        < 256 && (h >> 32) & 0xff < 256 && (h >> 40) & 0xff < 256 && (h >> 48) & 0xff < 256 && (h
        >> 56) & 0xff < 256) by (bit_vector);
}

/// Serializes a 64-bit digest as its eight little-endian bytes.
fn u64_to_le_bytes(h: u64) -> (out: Vec<u8>)
    ensures
        out@ == u64_le_bytes(h),
{
    proof {
        lemma_byte_masks(h);
    }
    let mut out: Vec<u8> = Vec::new();
    out.push((h & 0xff) as u8);
    out.push(((h >> 8) & 0xff) as u8);
    out.push(((h >> 16) & 0xff) as u8);
    out.push(((h >> 24) & 0xff) as u8);
    out.push(((h >> 32) & 0xff) as u8);
    out.push(((h >> 40) & 0xff) as u8);
    out.push(((h >> 48) & 0xff) as u8);
    out.push(((h >> 56) & 0xff) as u8);
    proof {
        assert(out@ =~= u64_le_bytes(h));
    }
    out
}

/// Byte-for-byte comparison of two byte strings.
fn bytes_eq(a: &Vec<u8>, b: &Vec<u8>) -> (r: bool)
    ensures
        r == (a@ == b@),
{
    if a.len() != b.len() {
        return false;
    }
    let mut i: usize = 0;
    while i < a.len()
        invariant
            i <= a.len(),
            a@.len() == b@.len(),
            forall|k: int| 0 <= k < i ==> a@[k] == b@[k],
        decreases a.len() - i,
    {
        if a[i] != b[i] {
            return false;
        }
        i = i + 1;
    }
    proof {
        assert(a@ =~= b@);
    }
    true
}

/// Checks a compute proof against a claimed result and the task's
/// requirements. Pure and total: it mutates nothing, never fails, and returns
/// `false` for every malformed or non-matching proof.
pub fn verify_computation(
    compute_proof: &Vec<u8>,
    result_bytes: &Vec<u8>,
    requirements: &Vec<u8>,
) -> (r: bool)
    ensures
        r == computation_verified(compute_proof@, result_bytes@, requirements@),
{
    let digest = fnv1a_concat(requirements, result_bytes);
    let expected = u64_to_le_bytes(digest);
    bytes_eq(compute_proof, &expected)
}

/// Builds the one proof that `verify_computation` accepts for this result
/// under these requirements — the workers' side of the proof scheme.
pub fn make_compute_proof(result_bytes: &Vec<u8>, requirements: &Vec<u8>) -> (out: Vec<u8>)
    ensures
        out@ == expected_proof(result_bytes@, requirements@),
        computation_verified(out@, result_bytes@, requirements@),
{
    let digest = fnv1a_concat(requirements, result_bytes);
    u64_to_le_bytes(digest)
}

} // verus!
