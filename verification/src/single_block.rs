//! The single-block compression kernel: SHA-256 of exactly one 32-byte
//! message, specified word for word against the standard algorithm and
//! verified against that specification.
//!
//! Because the message length is fixed at 32 bytes, the standard padding is a
//! constant pattern: the byte `0x80`, zeros up to the last schedule word, and
//! the bit length 256 in the final word. The specification bakes that pattern
//! in rather than computing it, exactly as the kernel does.

use vstd::prelude::*;

verus! {

/// Round constants for the SHA-256 family of digests.
pub const K32: [u32; 64] = [
    0x428a2f98, 0x71374491, 0xb5c0fbcf, 0xe9b5dba5, 0x3956c25b, 0x59f111f1, 0x923f82a4, 0xab1c5ed5,
    0xd807aa98, 0x12835b01, 0x243185be, 0x550c7dc3, 0x72be5d74, 0x80deb1fe, 0x9bdc06a7, 0xc19bf174,
    0xe49b69c1, 0xefbe4786, 0x0fc19dc6, 0x240ca1cc, 0x2de92c6f, 0x4a7484aa, 0x5cb0a9dc, 0x76f988da,
    0x983e5152, 0xa831c66d, 0xb00327c8, 0xbf597fc7, 0xc6e00bf3, 0xd5a79147, 0x06ca6351, 0x14292967,
    0x27b70a85, 0x2e1b2138, 0x4d2c6dfc, 0x53380d13, 0x650a7354, 0x766a0abb, 0x81c2c92e, 0x92722c85,
    0xa2bfe8a1, 0xa81a664b, 0xc24b8b70, 0xc76c51a3, 0xd192e819, 0xd6990624, 0xf40e3585, 0x106aa070,
    0x19a4c116, 0x1e376c08, 0x2748774c, 0x34b0bcb5, 0x391c0cb3, 0x4ed8aa4a, 0x5b9cca4f, 0x682e6ff3,
    0x748f82ee, 0x78a5636f, 0x84c87814, 0x8cc70208, 0x90befffa, 0xa4506ceb, 0xbef9a3f7, 0xc67178f2,
];

/// The choice function of the round transform.
pub open spec fn ch(x: u32, y: u32, z: u32) -> u32 {
    (x & y) ^ (!x & z)
}

/// The majority function of the round transform.
pub open spec fn maj(x: u32, y: u32, z: u32) -> u32 {
    (x & y) ^ (x & z) ^ (y & z)
}

/// The big sigma-0 rotation mix applied to the working variable `a`.
pub open spec fn bsig0(x: u32) -> u32 {
    ((x >> 2) | (x << 30)) ^ ((x >> 13) | (x << 19)) ^ ((x >> 22) | (x << 10))
}

/// The big sigma-1 rotation mix applied to the working variable `e`.
pub open spec fn bsig1(x: u32) -> u32 {
    ((x >> 6) | (x << 26)) ^ ((x >> 11) | (x << 21)) ^ ((x >> 25) | (x << 7))
}

/// The small sigma-0 mix of the message schedule.
pub open spec fn ssig0(x: u32) -> u32 {
    ((x >> 7) | (x << 25)) ^ ((x >> 18) | (x << 14)) ^ (x >> 3)
}

/// The small sigma-1 mix of the message schedule.
pub open spec fn ssig1(x: u32) -> u32 {
    ((x >> 17) | (x << 15)) ^ ((x >> 19) | (x << 13)) ^ (x >> 10)
}

/// A 32-bit word read big-endian from four bytes.
pub open spec fn be_word(b0: u8, b1: u8, b2: u8, b3: u8) -> u32 {
    ((b0 as u32) << 24) | ((b1 as u32) << 16) | ((b2 as u32) << 8) | (b3 as u32)
}

/// Word `t` of the padded 64-byte block for a 32-byte message `m`: the first
/// eight words carry the message, word 8 is the `1` padding bit, word 15 is
/// the bit length 256, and the rest are zero.
pub open spec fn block_word(m: Seq<u8>, t: int) -> u32
    recommends
        m.len() == 32,
        0 <= t < 16,
{
    if t < 8 {
        be_word(m[4 * t], m[4 * t + 1], m[4 * t + 2], m[4 * t + 3])
    } else if t == 8 {
        0x8000_0000u32
    } else if t == 15 {
        256u32
    } else {
        0u32
    }
}

/// Word `t` of the expanded message schedule.
pub open spec fn msg_word(m: Seq<u8>, t: int) -> u32
    recommends
        m.len() == 32,
        0 <= t < 64,
    decreases t,
{
    if t < 16 {
        block_word(m, t)
    } else {
        ssig1(msg_word(m, t - 2)).wrapping_add(msg_word(m, t - 7)).wrapping_add(
            ssig0(msg_word(m, t - 15)),
        ).wrapping_add(msg_word(m, t - 16))
    }
}

/// The eight working variables of the compression state.
#[derive(Clone, Copy, PartialEq, Eq, Structural)]
pub struct State {
    pub a: u32,
    pub b: u32,
    pub c: u32,
    pub d: u32,
    pub e: u32,
    pub f: u32,
    pub g: u32,
    pub h: u32,
}

/// The SHA-256 standard initial hash value.
pub open spec fn iv() -> State {
    State {
        a: 0x6a09e667u32,
        b: 0xbb67ae85u32,
        c: 0x3c6ef372u32,
        d: 0xa54ff53au32,
        e: 0x510e527fu32,
        f: 0x9b05688cu32,
        g: 0x1f83d9abu32,
        h: 0x5be0cd19u32,
    }
}

/// One round of the compression function; `kw` is the round constant already
/// added to the schedule word.
pub open spec fn round(s: State, kw: u32) -> State {
    let t1 = s.h.wrapping_add(bsig1(s.e)).wrapping_add(ch(s.e, s.f, s.g)).wrapping_add(kw);
    let t2 = bsig0(s.a).wrapping_add(maj(s.a, s.b, s.c));
    State {
        a: t1.wrapping_add(t2),
        b: s.a,
        c: s.b,
        d: s.c,
        e: s.d.wrapping_add(t1),
        f: s.e,
        g: s.f,
        h: s.g,
    }
}

/// The compression state after the first `t` rounds on message `m`.
pub open spec fn state_after(m: Seq<u8>, t: int) -> State
    recommends
        m.len() == 32,
        0 <= t <= 64,
    decreases t,
{
    if t <= 0 {
        iv()
    } else {
        round(state_after(m, t - 1), K32@[t - 1].wrapping_add(msg_word(m, t - 1)))
    }
}

/// The four big-endian bytes of a 32-bit word.
pub open spec fn word_bytes(w: u32) -> Seq<u8> {
    seq![(w >> 24) as u8, (w >> 16) as u8, (w >> 8) as u8, w as u8]
}

/// The SHA-256 digest of the 32-byte message `m`, hashed as a single
/// standard-padded 64-byte block: 64 rounds from the standard initial value,
/// the Davies-Meyer feed-forward, and big-endian serialization.
pub open spec fn sha256_block32(m: Seq<u8>) -> Seq<u8>
    recommends
        m.len() == 32,
{
    let s = state_after(m, 64);
    let v = iv();
    word_bytes(s.a.wrapping_add(v.a)) + word_bytes(s.b.wrapping_add(v.b)) + word_bytes(
        s.c.wrapping_add(v.c),
    ) + word_bytes(s.d.wrapping_add(v.d)) + word_bytes(s.e.wrapping_add(v.e)) + word_bytes(
        s.f.wrapping_add(v.f),
    ) + word_bytes(s.g.wrapping_add(v.g)) + word_bytes(s.h.wrapping_add(v.h))
}

fn ch_word(x: u32, y: u32, z: u32) -> (r: u32)
    ensures
        r == ch(x, y, z),
{
    (x & y) ^ (!x & z)
}

fn maj_word(x: u32, y: u32, z: u32) -> (r: u32)
    ensures
        r == maj(x, y, z),
{
    (x & y) ^ (x & z) ^ (y & z)
}

fn bsig0_word(x: u32) -> (r: u32)
    ensures
        r == bsig0(x),
{
    ((x >> 2) | (x << 30)) ^ ((x >> 13) | (x << 19)) ^ ((x >> 22) | (x << 10))
}

fn bsig1_word(x: u32) -> (r: u32)
    ensures
        r == bsig1(x),
{
    ((x >> 6) | (x << 26)) ^ ((x >> 11) | (x << 21)) ^ ((x >> 25) | (x << 7))
}

fn ssig0_word(x: u32) -> (r: u32)
    ensures
        r == ssig0(x),
{
    ((x >> 7) | (x << 25)) ^ ((x >> 18) | (x << 14)) ^ (x >> 3)
}

fn ssig1_word(x: u32) -> (r: u32)
    ensures
        r == ssig1(x),
{
    ((x >> 17) | (x << 15)) ^ ((x >> 19) | (x << 13)) ^ (x >> 10)
}

/// Compute the SHA-256 digest of exactly one 32-byte message. The padding for
/// a 256-bit message is a fixed pattern, so the schedule's second half is
/// written out as constants instead of being derived from the length.
pub fn single_hash_32(input: &[u8; 32]) -> (r: [u8; 32])
    ensures
        r@ == sha256_block32(input@),
{
    let mut w: [u32; 64] = [0u32; 64];
    let mut t: usize = 0;
    while t < 8
        invariant
            t <= 8,
            forall|j: int| 0 <= j < t ==> w@[j] == msg_word(input@, j),
            forall|j: int| t <= j < 64 ==> w@[j] == 0u32,
        decreases 8 - t,
    {
        let wd = ((input[4 * t] as u32) << 24) | ((input[4 * t + 1] as u32) << 16) | ((input[4 * t
            + 2] as u32) << 8) | (input[4 * t + 3] as u32);
        w[t] = wd;
        t += 1;
    }
    w[8] = 0x8000_0000u32;
    w[15] = 256u32;
    assert(forall|j: int| 0 <= j < 16 ==> w@[j] == msg_word(input@, j));
    let mut t: usize = 16;
    while t < 64
        invariant
            16 <= t <= 64,
            forall|j: int| 0 <= j < t ==> w@[j] == msg_word(input@, j),
        decreases 64 - t,
    {
        let wd = ssig1_word(w[t - 2]).wrapping_add(w[t - 7]).wrapping_add(
            ssig0_word(w[t - 15]),
        ).wrapping_add(w[t - 16]);
        w[t] = wd;
        t += 1;
    }
    let mut st = State {
        a: 0x6a09e667u32,
        b: 0xbb67ae85u32,
        c: 0x3c6ef372u32,
        d: 0xa54ff53au32,
        e: 0x510e527fu32,
        f: 0x9b05688cu32,
        g: 0x1f83d9abu32,
        h: 0x5be0cd19u32,
    };
    let mut t: usize = 0;
    while t < 64
        invariant
            t <= 64,
            forall|j: int| 0 <= j < 64 ==> w@[j] == msg_word(input@, j),
            st == state_after(input@, t as int),
        decreases 64 - t,
    {
        let kw = K32[t].wrapping_add(w[t]);
        let t1 = st.h.wrapping_add(bsig1_word(st.e)).wrapping_add(
            ch_word(st.e, st.f, st.g),
        ).wrapping_add(kw);
        let t2 = bsig0_word(st.a).wrapping_add(maj_word(st.a, st.b, st.c));
        st = State {
            a: t1.wrapping_add(t2),
            b: st.a,
            c: st.b,
            d: st.c,
            e: st.d.wrapping_add(t1),
            f: st.e,
            g: st.f,
            h: st.g,
        };
        t += 1;
    }
    let fa = st.a.wrapping_add(0x6a09e667u32);
    let fb = st.b.wrapping_add(0xbb67ae85u32);
    let fc = st.c.wrapping_add(0x3c6ef372u32);
    let fd = st.d.wrapping_add(0xa54ff53au32);
    let fe = st.e.wrapping_add(0x510e527fu32);
    let ff = st.f.wrapping_add(0x9b05688cu32);
    let fg = st.g.wrapping_add(0x1f83d9abu32);
    let fh = st.h.wrapping_add(0x5be0cd19u32);
    let mut out: [u8; 32] = [0u8; 32];
    out[0] = #[verifier::truncate] ((fa >> 24) as u8);
    out[1] = #[verifier::truncate] ((fa >> 16) as u8);
    out[2] = #[verifier::truncate] ((fa >> 8) as u8);
    out[3] = #[verifier::truncate] (fa as u8);
    out[4] = #[verifier::truncate] ((fb >> 24) as u8);
    out[5] = #[verifier::truncate] ((fb >> 16) as u8);
    out[6] = #[verifier::truncate] ((fb >> 8) as u8);
    out[7] = #[verifier::truncate] (fb as u8);
    out[8] = #[verifier::truncate] ((fc >> 24) as u8);
    out[9] = #[verifier::truncate] ((fc >> 16) as u8);
    out[10] = #[verifier::truncate] ((fc >> 8) as u8);
    out[11] = #[verifier::truncate] (fc as u8);
    out[12] = #[verifier::truncate] ((fd >> 24) as u8);
    out[13] = #[verifier::truncate] ((fd >> 16) as u8);
    out[14] = #[verifier::truncate] ((fd >> 8) as u8);
    out[15] = #[verifier::truncate] (fd as u8);
    out[16] = #[verifier::truncate] ((fe >> 24) as u8);
    out[17] = #[verifier::truncate] ((fe >> 16) as u8);
    out[18] = #[verifier::truncate] ((fe >> 8) as u8);
    out[19] = #[verifier::truncate] (fe as u8);
    out[20] = #[verifier::truncate] ((ff >> 24) as u8);
    out[21] = #[verifier::truncate] ((ff >> 16) as u8);
    out[22] = #[verifier::truncate] ((ff >> 8) as u8);
    out[23] = #[verifier::truncate] (ff as u8);
    out[24] = #[verifier::truncate] ((fg >> 24) as u8);
    out[25] = #[verifier::truncate] ((fg >> 16) as u8);
    out[26] = #[verifier::truncate] ((fg >> 8) as u8);
    out[27] = #[verifier::truncate] (fg as u8);
    out[28] = #[verifier::truncate] ((fh >> 24) as u8);
    out[29] = #[verifier::truncate] ((fh >> 16) as u8);
    out[30] = #[verifier::truncate] ((fh >> 8) as u8);
    out[31] = #[verifier::truncate] (fh as u8);
    assert(out@ =~= sha256_block32(input@));
    out
}

} // verus!
