//! Hash buckets: the key that is hashed, the bucket it lands in, and the
//! acceptance range of the search.
use vstd::prelude::*;
use vstd::string::StringSliceAdditionalSpecFns;

verus! {

/// Number of buckets a hash is reduced to.
pub const BUCKET_COUNT: u32 = 10000;

/// Exclusive lower bound of the accepted bucket range.
pub const RANGE_MIN: u32 = 0;

/// Exclusive upper bound of the accepted bucket range.
pub const RANGE_MAX: u32 = 100;

/// The byte `:` that separates the label from the identifier in a hash key.
pub const KEY_SEPARATOR: u8 = 58;

/// The longest byte string the hash takes: its length is handed on as an `i32`.
pub const MAX_HASH_INPUT: usize = 0x7fff_ffff;

/// What 32-bit MurmurHash3 (x86 variant, seed 0) gives on a byte string of
/// at most `MAX_HASH_INPUT` bytes. The hash reads the bytes in 4-byte blocks
/// in the target's native byte order, so a big-endian target gives other
/// values than a little-endian one for the same bytes.
pub uninterp spec fn murmur3_32_of(bytes: Seq<u8>) -> u32;

/// The bytes that are hashed for a label and a resource identifier:
/// `<label>:<id>`.
pub open spec fn hash_key(label: Seq<u8>, id: Seq<u8>) -> Seq<u8> {
    label + seq![KEY_SEPARATOR] + id
}

/// The bucket that a hash value lands in.
pub open spec fn bucket_of(h: u32) -> u32 {
    h % BUCKET_COUNT
}

/// Whether a bucket lies strictly inside the target range.
pub open spec fn accepted(b: u32) -> bool {
    RANGE_MIN < b && b < RANGE_MAX
}

/// Whether the key of a label and an identifier is short enough to hash.
pub open spec fn key_fits(label: Seq<u8>, id: Seq<u8>) -> bool {
    label.len() + id.len() < MAX_HASH_INPUT
}

/// The bucket of a label and an identifier, both given as their bytes.
pub open spec fn bucket_spec(label: Seq<u8>, id: Seq<u8>) -> u32 {
    bucket_of(murmur3_32_of(hash_key(label, id)))
}

/// Relies on fasthash's `murmur3::Hash32::hash`: the seed-0 32-bit
/// MurmurHash3 of the bytes, which depends on the bytes alone. It hands the
/// length on to C as an `i32`, so longer inputs are left out.
#[verifier::external_body]
fn murmur3_32(bytes: &[u8]) -> (r: u32)
    requires
        bytes@.len() <= MAX_HASH_INPUT,
    ensures
        r == murmur3_32_of(bytes@),
{
    <fasthash::murmur3::Hash32 as fasthash::FastHash>::hash(bytes)
}

/// Builds `<label>:<id>` as bytes.
pub fn key_bytes(label: &str, id: &str) -> (r: Vec<u8>)
    ensures
        r@ == hash_key(label.spec_bytes(), id.spec_bytes()),
{
    let lb = label.as_bytes();
    let ib = id.as_bytes();
    let mut r: Vec<u8> = Vec::new();
    let mut i: usize = 0;
    while i < lb.len()
        invariant
            i <= lb@.len(),
            r@ == lb@.subrange(0, i as int),
        decreases lb@.len() - i,
    {
        r.push(lb[i]);
        i = i + 1;
        proof {
            assert(r@ =~= lb@.subrange(0, i as int));
        }
    }
    r.push(KEY_SEPARATOR);
    let mut j: usize = 0;
    while j < ib.len()
        invariant
            j <= ib@.len(),
            r@ == lb@ + seq![KEY_SEPARATOR] + ib@.subrange(0, j as int),
        decreases ib@.len() - j,
    {
        r.push(ib[j]);
        j = j + 1;
        proof {
            assert(r@ =~= lb@ + seq![KEY_SEPARATOR] + ib@.subrange(0, j as int));
        }
    }
    proof {
        assert(lb@.subrange(0, lb@.len() as int) =~= lb@);
        assert(ib@.subrange(0, ib@.len() as int) =~= ib@);
    }
    r
}

/// Reduces a hash value to its bucket.
pub fn bucket_of_hash(h: u32) -> (r: u32)
    ensures
        r == bucket_of(h),
        r < BUCKET_COUNT,
{
    h % BUCKET_COUNT
}

/// Whether a bucket is accepted: strictly between the range bounds.
pub fn is_accepted(b: u32) -> (r: bool)
    ensures
        r == accepted(b),
        r <==> 0 < b < 100,
{
    RANGE_MIN < b && b < RANGE_MAX
}

/// The bucket of an experiment label and a resource identifier:
/// the hash of `<label>:<id>`, reduced modulo the bucket count.
pub fn bucket_for(label: &str, id: &str) -> (r: u32)
    requires
        key_fits(label.spec_bytes(), id.spec_bytes()),
    ensures
        r == bucket_spec(label.spec_bytes(), id.spec_bytes()),
        r < BUCKET_COUNT,
{
    let key = key_bytes(label, id);
    let h = murmur3_32(key.as_slice());
    bucket_of_hash(h)
}

/// Whether `<label>:<id>` is short enough to hash.
pub fn hash_key_fits(label: &str, id: &str) -> (r: bool)
    ensures
        r == key_fits(label.spec_bytes(), id.spec_bytes()),
{
    let l = label.as_bytes().len();
    let i = id.as_bytes().len();
    l < MAX_HASH_INPUT && i < MAX_HASH_INPUT - l
}

} // verus!
