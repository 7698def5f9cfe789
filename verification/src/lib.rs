//! SHA-256 hashing with an optimized single-block path.
//!
//! A caller hands in one or more byte fragments; the library returns the
//! SHA-256 digest of their concatenation. A single fragment of exactly 32
//! bytes is routed to the verified single-block compression kernel; every
//! other shape is fed to an incremental SHA-256 engine. Optional counters
//! record which path each call took.

use vstd::prelude::*;

pub mod generic_hasher;
pub mod single_block;
pub mod stats;

pub use generic_hasher::Hasher;

verus! {

use crate::generic_hasher::sha256_of;
use crate::single_block::sha256_block32;

/// A 32-byte SHA-256 digest. Equality is byte-wise; there is no internal
/// structure beyond the raw bytes.
#[derive(Clone, Copy, PartialEq, Eq, Debug)]
pub struct Digest {
    bytes: [u8; 32],
}

impl View for Digest {
    type V = Seq<u8>;

    closed spec fn view(&self) -> Seq<u8> {
        self.bytes@
    }
}

impl Digest {
    /// Wrap 32 raw bytes as a digest.
    pub fn new(bytes: [u8; 32]) -> (r: Digest)
        ensures
            r@ == bytes@,
    {
        Digest { bytes }
    }

    /// The digest's bytes, in standard SHA-256 big-endian digest order.
    pub fn to_bytes(&self) -> (r: [u8; 32])
        ensures
            r@ == self@,
    {
        self.bytes
    }

    /// A digest always views as exactly 32 bytes.
    pub proof fn lemma_len(self)
        ensures
            self@.len() == 32,
    {
    }
}

/// The concatenation of a list of byte fragments, in order.
pub open spec fn frag_bytes(vals: Seq<&[u8]>) -> Seq<u8>
    decreases vals.len(),
{
    if vals.len() == 0 {
        Seq::empty()
    } else {
        vals.first()@ + frag_bytes(vals.drop_first())
    }
}

/// Concatenating one more fragment appends exactly that fragment's bytes.
pub proof fn lemma_frag_bytes_take_step(vals: Seq<&[u8]>, i: int)
    requires
        0 <= i < vals.len(),
    ensures
        frag_bytes(vals.take(i + 1)) == frag_bytes(vals.take(i)) + vals[i]@,
    decreases i,
{
    if i == 0 {
        assert(vals.take(1).drop_first() =~= Seq::<&[u8]>::empty());
        assert(vals.take(0) =~= Seq::<&[u8]>::empty());
        assert(frag_bytes(vals.take(1)) =~= frag_bytes(vals.take(0)) + vals[0]@);
    } else {
        let tl = vals.drop_first();
        lemma_frag_bytes_take_step(tl, i - 1);
        assert(vals.take(i + 1).drop_first() =~= tl.take(i));
        assert(vals.take(i).drop_first() =~= tl.take(i - 1));
        assert(frag_bytes(vals.take(i + 1)) =~= frag_bytes(vals.take(i)) + vals[i]@);
    }
}

/// A one-fragment list concatenates to that fragment's bytes.
pub proof fn lemma_frag_bytes_singleton(vals: Seq<&[u8]>)
    requires
        vals.len() == 1,
    ensures
        frag_bytes(vals) == vals[0]@,
{
    assert(vals.drop_first() =~= Seq::<&[u8]>::empty());
    assert(frag_bytes(vals.drop_first()) == Seq::<u8>::empty());
    assert(frag_bytes(vals) == vals.first()@ + frag_bytes(vals.drop_first()));
    assert(frag_bytes(vals) =~= vals[0]@);
}

/// Law: an empty fragment contributes nothing: dropping it leaves the
/// concatenated bytes unchanged.
pub proof fn lemma_empty_fragment_noop(vals: Seq<&[u8]>, i: int)
    requires
        0 <= i < vals.len(),
        vals[i]@.len() == 0,
    ensures
        frag_bytes(vals.remove(i)) == frag_bytes(vals),
    decreases i,
{
    if i == 0 {
        assert(vals.remove(0) =~= vals.drop_first());
        assert(frag_bytes(vals) == vals.first()@ + frag_bytes(vals.drop_first()));
        assert(frag_bytes(vals) =~= frag_bytes(vals.drop_first()));
    } else {
        let tl = vals.drop_first();
        lemma_empty_fragment_noop(tl, i - 1);
        assert(vals.remove(i).drop_first() =~= tl.remove(i - 1));
        assert(frag_bytes(vals.remove(i)) == vals.remove(i).first()@ + frag_bytes(
            vals.remove(i).drop_first(),
        ));
        assert(frag_bytes(vals.remove(i)) =~= frag_bytes(vals));
    }
}

/// The input shape the optimized kernel handles: exactly one fragment of
/// exactly 32 bytes.
pub open spec fn single_block_shape(vals: Seq<&[u8]>) -> bool {
    vals.len() == 1 && vals[0]@.len() == 32
}

/// The digest `hashv` returns: the kernel's single-block digest on the one
/// shape the kernel handles, the generic engine's digest of the concatenated
/// fragments on every other shape. That the two agree wherever both apply is
/// the system's central invariant; it is checked by the test suite, since the
/// engine's digest is known here only by name.
pub open spec fn hashv_digest(vals: Seq<&[u8]>) -> Seq<u8> {
    if single_block_shape(vals) {
        sha256_block32(vals[0]@)
    } else {
        sha256_of(frag_bytes(vals))
    }
}

/// The digest `hash` returns for a single byte sequence.
pub open spec fn hash_digest(bytes: Seq<u8>) -> Seq<u8> {
    if bytes.len() == 32 {
        sha256_block32(bytes)
    } else {
        sha256_of(bytes)
    }
}

/// Law: on every shape but the single 32-byte fragment, the dispatcher
/// returns exactly the generic hasher's digest of the concatenated
/// fragments.
pub proof fn lemma_hashv_matches_generic(vals: Seq<&[u8]>)
    requires
        !single_block_shape(vals),
    ensures
        hashv_digest(vals) == sha256_of(frag_bytes(vals)),
{
}

/// Law: dropping an empty fragment leaves the digest unchanged, as long as
/// neither shape is the single 32-byte fragment the kernel handles (there
/// the two digests are computed by the two different paths, whose agreement
/// the test suite checks).
pub proof fn lemma_empty_fragment_digest(vals: Seq<&[u8]>, i: int)
    requires
        0 <= i < vals.len(),
        vals[i]@.len() == 0,
        !single_block_shape(vals),
        !single_block_shape(vals.remove(i)),
    ensures
        hashv_digest(vals.remove(i)) == hashv_digest(vals),
{
    lemma_empty_fragment_noop(vals, i);
}

/// Law: the digest is a function of the fragment list alone, so repeated
/// calls on identical input return identical digests.
pub proof fn lemma_hashv_deterministic(vals: Seq<&[u8]>, r1: Seq<u8>, r2: Seq<u8>)
    requires
        r1 == hashv_digest(vals),
        r2 == hashv_digest(vals),
    ensures
        r1 == r2,
{
}

fn block_from_slice(v: &[u8]) -> (r: [u8; 32])
    requires
        v@.len() == 32,
    ensures
        r@ == v@,
{
    let mut r: [u8; 32] = [0u8; 32];
    let mut i: usize = 0;
    while i < 32
        invariant
            i <= 32,
            v@.len() == 32,
            forall|j: int| 0 <= j < i ==> r@[j] == v@[j],
        decreases 32 - i,
    {
        r[i] = v[i];
        i += 1;
    }
    assert(r@ =~= v@);
    r
}

/// Return the SHA-256 digest of the given fragments, logically concatenated.
/// A single 32-byte fragment takes the optimized single-block kernel; every
/// other shape takes the generic engine.
pub fn hashv(vals: &[&[u8]]) -> (r: Digest)
    ensures
        r@ == hashv_digest(vals@),
{
    if vals.len() == 1 && vals[0].len() == 32 {
        let block = block_from_slice(vals[0]);
        Digest::new(single_block::single_hash_32(&block))
    } else {
        let mut hasher = Hasher::default();
        hasher.hashv(vals);
        let r = hasher.result();
        proof {
            assert(Seq::<u8>::empty() + frag_bytes(vals@) =~= frag_bytes(vals@));
        }
        r
    }
}

/// A total fragment length clamped to at most 32: enough to pick a miss
/// bucket without summing beyond the histogram's range.
pub open spec fn clamp32(n: int) -> int {
    if n >= 32 {
        32
    } else {
        n
    }
}

fn clamped_len(vals: &[&[u8]]) -> (r: usize)
    ensures
        r as int == clamp32(frag_bytes(vals@).len() as int),
{
    let mut total: usize = 0;
    let mut i: usize = 0;
    proof {
        assert(vals@.take(0) =~= Seq::<&[u8]>::empty());
    }
    while i < vals.len()
        invariant
            i <= vals@.len(),
            total <= 32,
            total as int == clamp32(frag_bytes(vals@.take(i as int)).len() as int),
        decreases vals@.len() - i,
    {
        let l = vals[i].len();
        proof {
            lemma_frag_bytes_take_step(vals@, i as int);
        }
        if l >= 32 || total + l >= 32 {
            total = 32;
        } else {
            total = total + l;
        }
        i += 1;
    }
    proof {
        assert(vals@.take(vals@.len() as int) =~= vals@);
    }
    total
}

/// Return the digest exactly as `hashv` does, and count the routing decision
/// in the given counters: a hit for the single 32-byte fragment shape,
/// otherwise a miss bucketed by the fragments' total length. The second
/// result says whether the periodic hit log is due; it is never due on a
/// miss.
pub fn hashv_with_stats(vals: &[&[u8]], stats: &mut stats::HashStats) -> (r: (Digest, bool))
    ensures
        r.0@ == hashv_digest(vals@),
        single_block_shape(vals@) ==> stats::hit_recorded(*old(stats), *final(stats)) && r.1 == (
        old(stats).spec_hits() % 10000 == 0),
        !single_block_shape(vals@) ==> stats::miss_recorded(
            *old(stats),
            *final(stats),
            stats::miss_bucket(frag_bytes(vals@).len() as int),
        ) && r.1 == false,
{
    let due: bool;
    if vals.len() == 1 && vals[0].len() == 32 {
        due = stats.record_hit();
    } else {
        let total = clamped_len(vals);
        stats.record_miss(total);
        due = false;
    }
    let d = hashv(vals);
    (d, due)
}

/// Return the SHA-256 digest of the given data.
pub fn hash(val: &[u8]) -> (r: Digest)
    ensures
        r@ == hash_digest(val@),
{
    let mut frags: Vec<&[u8]> = Vec::new();
    frags.push(val);
    let r = hashv(frags.as_slice());
    proof {
        lemma_frag_bytes_singleton(frags@);
    }
    r
}

/// Return the digest of the given digest's bytes extended with the given
/// bytes.
pub fn extend_and_hash(id: &Digest, val: &[u8]) -> (r: Digest)
    ensures
        r@ == hash_digest(id@ + val@),
{
    let bytes = id.to_bytes();
    let mut data: Vec<u8> = Vec::new();
    let mut i: usize = 0;
    while i < 32
        invariant
            i <= 32,
            bytes@ == id@,
            id@.len() == 32,
            data@ == id@.take(i as int),
        decreases 32 - i,
    {
        data.push(bytes[i]);
        assert(data@ =~= id@.take(i + 1));
        i += 1;
    }
    assert(data@ =~= id@);
    let mut i: usize = 0;
    while i < val.len()
        invariant
            i <= val@.len(),
            data@ == id@ + val@.take(i as int),
        decreases val@.len() - i,
    {
        data.push(val[i]);
        assert(data@ =~= id@ + val@.take(i + 1));
        i += 1;
    }
    assert(data@ =~= id@ + val@);
    hash(data.as_slice())
}

} // verus!
