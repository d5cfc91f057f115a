//! Spongos-based keyed pseudorandom generator.
//!
//! A `Prng` turns a fixed-length secret key and a caller-supplied nonce into
//! arbitrary-length deterministic pseudorandom output. The non-deterministic
//! helpers at the bottom draw from the process-wide secure source instead.

use vstd::prelude::*;

use vstd::string::StringSliceAdditionalSpecFns;

use crate::error::StreamsError;
use crate::spongos::{
    absorb_pos, absorb_state, commit_state, squeeze_out, zero_state, Spongos, CAPACITY,
};

verus! {

/// Fixed secret-key length in bytes: the sponge capacity.
pub const KEY_SIZE: usize = CAPACITY;

/// Length in bytes of the nonces made by `random_nonce`.
pub const NONCE_SIZE: usize = 16;

/// The bytes a generation call squeezes, starting from sponge state `st` at
/// rate position `pos`: absorb the key, absorb the nonce, commit, squeeze.
pub open spec fn gen_from(st: Seq<u8>, pos: nat, key: Seq<u8>, nonce: Seq<u8>, n: nat) -> Seq<u8> {
    let st1 = absorb_state(st, pos, key);
    let p1 = absorb_pos(pos, key);
    let st2 = absorb_state(st1, p1, nonce);
    let p2 = absorb_pos(p1, nonce);
    squeeze_out(commit_state(st2, p2), 0, n)
}

/// The `n` bytes that `gen` returns for a key and a nonce. Each draw starts
/// from a fresh zeroed sponge, so the output is a function of these three
/// arguments alone.
pub open spec fn gen_spec(key: Seq<u8>, nonce: Seq<u8>, n: nat) -> Seq<u8> {
    gen_from(zero_state(), 0, key, nonce, n)
}

/// The secret key that `from_seed` derives: two absorb/commit rounds chained
/// through one sponge — seed first, domain second — then `KEY_SIZE` bytes
/// squeezed.
pub open spec fn from_seed_key(domain: Seq<u8>, seed: Seq<u8>) -> Seq<u8> {
    let st1 = absorb_state(zero_state(), 0, seed);
    let p1 = absorb_pos(0, seed);
    let st2 = commit_state(st1, p1);
    let st3 = absorb_state(st2, 0, domain);
    let p3 = absorb_pos(0, domain);
    let st4 = commit_state(st3, p3);
    squeeze_out(st4, 0, KEY_SIZE as nat)
}

/// The secret key that `dbg_init_str` derives: one absorb/commit round over
/// the string, with no domain separation.
pub open spec fn dbg_key(secret: Seq<u8>) -> Seq<u8> {
    let st1 = absorb_state(zero_state(), 0, secret);
    let p1 = absorb_pos(0, secret);
    squeeze_out(commit_state(st1, p1), 0, KEY_SIZE as nat)
}

/// Keyed pseudorandom generator. The secret key is immutable after
/// construction; every draw builds a fresh sponge, so the generator is a
/// pure function of (key, nonce, length).
pub struct Prng {
    secret_key: Vec<u8>,
}

impl Clone for Prng {
    /// A generator with the same secret key.
    fn clone(&self) -> (r: Self)
        ensures
            r.key() == self.key(),
    {
        Prng { secret_key: crate::link::clone_bytes(&self.secret_key) }
    }
}

impl Prng {
    /// The secret key, as the contracts see it.
    pub closed spec fn key(self) -> Seq<u8> {
        self.secret_key@
    }

    /// Invariant established by every constructor: the key has exactly
    /// `KEY_SIZE` bytes.
    pub open spec fn wf(self) -> bool {
        self.key().len() == KEY_SIZE
    }

    /// Create a generator from a secret key. A key of any length other
    /// than `KEY_SIZE` is rejected with `InvalidKeyLength`; exactly
    /// `KEY_SIZE` succeeds.
    pub fn init(secret_key: Vec<u8>) -> (r: Result<Prng, StreamsError>)
        ensures
            secret_key@.len() == KEY_SIZE <==> r is Ok,
            r is Ok ==> r->Ok_0.wf() && r->Ok_0.key() == secret_key@,
            r is Err ==> r->Err_0 == StreamsError::InvalidKeyLength,
    {
        if secret_key.len() == KEY_SIZE {
            Ok(Prng { secret_key })
        } else {
            Err(StreamsError::InvalidKeyLength)
        }
    }

    /// The secret key bytes, for callers that persist or compare them.
    pub fn key_bytes(&self) -> (r: &Vec<u8>)
        ensures
            r@ == self.key(),
    {
        &self.secret_key
    }

    /// One generation round on a caller-supplied sponge: absorb the key,
    /// then the nonce, commit, and squeeze `rnd.len()` bytes into `rnd`.
    fn gen_with_spongos(&self, s: &mut Spongos, nonce: &[u8], rnd: &mut Vec<u8>)
        requires
            self.wf(),
            old(s).wf(),
        ensures
            final(s).wf(),
            final(rnd)@ == gen_from(
                old(s).state(),
                old(s).pos(),
                self.key(),
                nonce@,
                old(rnd)@.len(),
            ),
            final(rnd)@.len() == old(rnd)@.len(),
    {
        s.absorb(self.secret_key.as_slice());
        s.absorb(nonce);
        s.commit();
        s.squeeze(rnd);
    }

    /// Overwrite `rnd` with pseudorandom bytes for this key and `nonce`.
    /// Identical (key, nonce, length) always yields identical output; the
    /// caller must supply distinct nonces across draws to keep outputs
    /// unpredictable.
    pub fn gen(&self, nonce: &[u8], rnd: &mut Vec<u8>)
        requires
            self.wf(),
        ensures
            final(rnd)@ == gen_spec(self.key(), nonce@, old(rnd)@.len()),
            final(rnd)@.len() == old(rnd)@.len(),
    {
        let mut s = Spongos::init();
        self.gen_with_spongos(&mut s, nonce, rnd);
    }

    /// The owning-allocation form of `gen`: `n` fresh pseudorandom bytes.
    pub fn gen_bytes(&self, nonce: &Vec<u8>, n: usize) -> (r: Vec<u8>)
        requires
            self.wf(),
        ensures
            r@ == gen_spec(self.key(), nonce@, n as nat),
            r@.len() == n,
    {
        let mut rnd = zeroed(n);
        self.gen(nonce.as_slice(), &mut rnd);
        rnd
    }
}

/// Create a generator from a secret key; see `Prng::init`.
pub fn init(secret_key: Vec<u8>) -> (r: Result<Prng, StreamsError>)
    ensures
        secret_key@.len() == KEY_SIZE <==> r is Ok,
        r is Ok ==> r->Ok_0.wf() && r->Ok_0.key() == secret_key@,
        r is Err ==> r->Err_0 == StreamsError::InvalidKeyLength,
{
    Prng::init(secret_key)
}

/// Derive a generator from a passphrase-like seed under a domain label.
/// The same (domain, seed) pair is always reproducible, while distinct
/// domains separate the derived keys.
pub fn from_seed(domain: &str, seed: &str) -> (r: Prng)
    ensures
        r.wf(),
        r.key() == from_seed_key(domain.spec_bytes(), seed.spec_bytes()),
{
    let mut s = Spongos::init();
    s.absorb(seed.as_bytes());
    s.commit();
    s.absorb(domain.as_bytes());
    s.commit();
    let secret_key = s.squeeze_buf(KEY_SIZE);
    Prng { secret_key }
}

/// Derive a generator from a single string with no domain separation.
/// Only for deterministic test fixtures; never for production key material.
pub fn dbg_init_str(secret_key: &str) -> (r: Prng)
    ensures
        r.wf(),
        r.key() == dbg_key(secret_key.spec_bytes()),
{
    let mut s = Spongos::init();
    s.absorb(secret_key.as_bytes());
    s.commit();
    let secret_key = s.squeeze_buf(KEY_SIZE);
    Prng { secret_key }
}

/// A zero-filled buffer of `n` bytes.
pub(crate) fn zeroed(n: usize) -> (v: Vec<u8>)
    ensures
        v@.len() == n,
        forall|j: int| 0 <= j < n ==> v@[j] == 0u8,
{
    let mut v: Vec<u8> = Vec::new();
    let mut i: usize = 0;
    while i < n
        invariant
            i <= n,
            v@.len() == i,
            forall|j: int| 0 <= j < i ==> v@[j] == 0u8,
        decreases n - i,
    {
        v.push(0u8);
        i += 1;
    }
    v
}

/// Relies on rand::thread_rng and rand::RngCore::try_fill_bytes: fills the
/// buffer from the process-wide cryptographically secure source, reporting
/// failure instead of panicking. Nothing is promised of the bytes drawn.
#[verifier::external_body]
fn fill_from_secure_source(buf: &mut Vec<u8>) -> (ok: bool)
    ensures
        final(buf)@.len() == old(buf)@.len(),
{
    let mut rng = rand::thread_rng();
    rand::RngCore::try_fill_bytes(&mut rng, buf.as_mut_slice()).is_ok()
}

/// `n` bytes from the secure system source, for ephemeral, non-reproducible
/// material. Fails with `NoSecureRandomSource` — never a weaker fallback —
/// when the source is unavailable.
pub fn random_bytes(n: usize) -> (r: Result<Vec<u8>, StreamsError>)
    ensures
        r is Ok ==> r->Ok_0@.len() == n,
        r is Err ==> r->Err_0 == StreamsError::NoSecureRandomSource,
{
    let mut v = zeroed(n);
    if fill_from_secure_source(&mut v) {
        Ok(v)
    } else {
        Err(StreamsError::NoSecureRandomSource)
    }
}

/// A fresh random nonce of `NONCE_SIZE` bytes from the secure source.
pub fn random_nonce() -> (r: Result<Vec<u8>, StreamsError>)
    ensures
        r is Ok ==> r->Ok_0@.len() == NONCE_SIZE,
        r is Err ==> r->Err_0 == StreamsError::NoSecureRandomSource,
{
    random_bytes(NONCE_SIZE)
}

/// A fresh random key of `KEY_SIZE` bytes from the secure source.
pub fn random_key() -> (r: Result<Vec<u8>, StreamsError>)
    ensures
        r is Ok ==> r->Ok_0@.len() == KEY_SIZE,
        r is Err ==> r->Err_0 == StreamsError::NoSecureRandomSource,
{
    random_bytes(KEY_SIZE)
}

/// Determinism of the keyed generator: equal keys, nonces and lengths give
/// byte-for-byte equal output, however often and wherever it is drawn.
pub proof fn lemma_gen_deterministic(
    k1: Seq<u8>,
    n1: Seq<u8>,
    l1: nat,
    k2: Seq<u8>,
    n2: Seq<u8>,
    l2: nat,
)
    requires
        k1 == k2,
        n1 == n2,
        l1 == l2,
    ensures
        gen_spec(k1, n1, l1) == gen_spec(k2, n2, l2),
{
}

} // verus!
