//! The generic multi-part hasher: an adapter over the incremental SHA-256
//! engine of the `sha2` crate. The engine computes the reference digest; what
//! it has absorbed and what digest it emits are stated here as contracts over
//! two names, `absorbed` and `sha256_of`.

use vstd::prelude::*;
use crate::Digest;
use crate::frag_bytes;

verus! {

/// The bytes an engine has absorbed since it was created, in order.
pub uninterp spec fn absorbed(e: Sha256Engine) -> Seq<u8>;

/// The SHA-256 digest of a byte sequence, as the `sha2` crate computes it.
/// The digest depends on the bytes alone; writing it out would restate the
/// whole algorithm, so it is left as a name.
pub uninterp spec fn sha256_of(bytes: Seq<u8>) -> Seq<u8>;

/// Holds a `sha2::Sha256` engine. Verus cannot read that type's declaration,
/// so the struct is opaque and its state is spoken of through `absorbed`.
#[verifier::external_body]
pub struct Sha256Engine {
    inner: sha2::Sha256,
}

/// Relies on `sha2::Digest::new`: a freshly created engine has absorbed
/// nothing.
#[verifier::external_body]
fn engine_new() -> (e: Sha256Engine)
    ensures
        absorbed(e) == Seq::<u8>::empty(),
{
    Sha256Engine { inner: <sha2::Sha256 as sha2::Digest>::new() }
}

/// Relies on `sha2::Digest::update`: the engine may be fed incrementally, and
/// feeding it `val` appends `val`'s bytes to what it has absorbed.
#[verifier::external_body]
fn engine_update(e: &mut Sha256Engine, val: &[u8])
    ensures
        absorbed(*final(e)) == absorbed(*old(e)) + val@,
{
    sha2::Digest::update(&mut e.inner, val);
}

/// Relies on `sha2::Sha256: Clone`: a clone is an independent engine that
/// has absorbed the same bytes.
#[verifier::external_body]
fn engine_clone(e: &Sha256Engine) -> (r: Sha256Engine)
    ensures
        absorbed(r) == absorbed(*e),
{
    Sha256Engine { inner: e.inner.clone() }
}

/// Relies on `sha2::Digest::finalize`: the result is the 32-byte SHA-256
/// digest of everything the engine has absorbed.
#[verifier::external_body]
fn engine_finalize(e: Sha256Engine) -> (r: [u8; 32])
    ensures
        r@ == sha256_of(absorbed(e)),
{
    sha2::Digest::finalize(e.inner).into()
}

/// An incremental SHA-256 hasher. Its view is the sequence of bytes fed so
/// far; `result` returns the digest of that sequence.
pub struct Hasher {
    engine: Sha256Engine,
}

impl View for Hasher {
    type V = Seq<u8>;

    closed spec fn view(&self) -> Seq<u8> {
        absorbed(self.engine)
    }
}

impl Clone for Hasher {
    /// A clone continues independently from the same absorbed bytes.
    fn clone(&self) -> (r: Hasher)
        ensures
            r@ == self@,
    {
        Hasher { engine: engine_clone(&self.engine) }
    }
}

impl Default for Hasher {
    /// A new hasher that has absorbed nothing.
    fn default() -> (r: Hasher)
        ensures
            r@ == Seq::<u8>::empty(),
    {
        Hasher { engine: engine_new() }
    }
}

impl Hasher {
    /// Feed one byte slice to the hasher.
    pub fn hash(&mut self, val: &[u8])
        ensures
            final(self)@ == old(self)@ + val@,
    {
        engine_update(&mut self.engine, val);
    }

    /// Feed a list of byte slices to the hasher, in order.
    pub fn hashv(&mut self, vals: &[&[u8]])
        ensures
            final(self)@ == old(self)@ + frag_bytes(vals@),
    {
        let mut i: usize = 0;
        while i < vals.len()
            invariant
                i <= vals@.len(),
                self@ == old(self)@ + frag_bytes(vals@.take(i as int)),
            decreases vals@.len() - i,
        {
            self.hash(vals[i]);
            proof {
                crate::lemma_frag_bytes_take_step(vals@, i as int);
            }
            i += 1;
        }
        proof {
            assert(vals@.take(vals@.len() as int) =~= vals@);
        }
    }

    /// Consume the hasher and return the digest of everything fed to it.
    pub fn result(self) -> (r: Digest)
        ensures
            r@ == sha256_of(self@),
    {
        Digest::new(engine_finalize(self.engine))
    }
}

} // verus!
