//! Counter-mode randomness source: a keyed generator plus an auto-advancing
//! nonce, so every draw uses a nonce no earlier draw used.

use vstd::prelude::*;

use crate::error::StreamsError;
use crate::prng::{gen_spec, Prng};

verus! {

/// The nonce after one draw: byte-wise little-endian increment with carry;
/// when every byte wraps, the nonce grows by one zero byte, so the nonce
/// space never exhausts.
pub open spec fn inc_spec(s: Seq<u8>) -> Seq<u8>
    decreases s.len(),
{
    if s.len() == 0 {
        seq![0u8]
    } else if s[0] == 255 {
        seq![0u8] + inc_spec(s.drop_first())
    } else {
        s.update(0, (s[0] + 1) as u8)
    }
}

/// The nonce after `k` draws.
pub open spec fn iter_inc(s: Seq<u8>, k: nat) -> Seq<u8>
    decreases k,
{
    if k == 0 {
        s
    } else {
        inc_spec(iter_inc(s, (k - 1) as nat))
    }
}

/// Rank of a nonce in the order the counter walks: the number of nonces
/// that come before it, counting every shorter nonce first.
pub open spec fn nonce_rank(s: Seq<u8>) -> nat
    decreases s.len(),
{
    if s.len() == 0 {
        0
    } else {
        (1 + s[0] + 256 * nonce_rank(s.drop_first())) as nat
    }
}

/// Each increment moves the nonce exactly one place up the rank order,
/// across carry and growth alike.
pub proof fn lemma_inc_rank(s: Seq<u8>)
    ensures
        nonce_rank(inc_spec(s)) == nonce_rank(s) + 1,
    decreases s.len(),
{
    if s.len() == 0 {
        let t = seq![0u8];
        assert(t.drop_first() =~= Seq::<u8>::empty());
        assert(t[0] == 0u8);
        assert(nonce_rank(Seq::<u8>::empty()) == 0);
        assert(nonce_rank(t) == 1);
    } else if s[0] == 255 {
        lemma_inc_rank(s.drop_first());
        let t = seq![0u8] + inc_spec(s.drop_first());
        assert(t.drop_first() =~= inc_spec(s.drop_first()));
        assert(t[0] == 0u8);
        assert(t.len() > 0);
    } else {
        let t = s.update(0, (s[0] + 1) as u8);
        assert(t.drop_first() =~= s.drop_first());
        assert(t[0] == s[0] + 1);
    }
}

/// After `k` draws the nonce stands exactly `k` places up the rank order.
pub proof fn lemma_iter_inc_rank(s: Seq<u8>, k: nat)
    ensures
        nonce_rank(iter_inc(s, k)) == nonce_rank(s) + k,
    decreases k,
{
    if k > 0 {
        lemma_iter_inc_rank(s, (k - 1) as nat);
        lemma_inc_rank(iter_inc(s, (k - 1) as nat));
    }
}

/// Counter-mode non-repetition: successive draws from one `Rng` never use
/// the same nonce twice, including across the growth boundary — the nonce
/// after draw `i` differs from the nonce after draw `j` whenever `i != j`.
pub proof fn lemma_nonce_never_repeats(s: Seq<u8>, i: nat, j: nat)
    requires
        i != j,
    ensures
        iter_inc(s, i) != iter_inc(s, j),
{
    lemma_iter_inc_rank(s, i);
    lemma_iter_inc_rank(s, j);
}

/// Carrying through a prefix of full bytes zeroes that prefix and
/// increments the rest.
proof fn lemma_inc_carry(s: Seq<u8>, i: nat)
    requires
        i <= s.len(),
        forall|j: int| 0 <= j < i ==> s[j] == 255u8,
    ensures
        inc_spec(s) == Seq::new(i, |j: int| 0u8) + inc_spec(s.skip(i as int)),
    decreases i,
{
    if i == 0 {
        assert(s.skip(0) =~= s);
        assert(Seq::new(0, |j: int| 0u8) + inc_spec(s) =~= inc_spec(s));
    } else {
        assert forall|j: int| 0 <= j < i - 1 implies s.drop_first()[j] == 255u8 by {
            assert(s[j + 1] == 255u8);
        }
        lemma_inc_carry(s.drop_first(), (i - 1) as nat);
        assert(s.drop_first().skip(i - 1) =~= s.skip(i as int));
        assert(seq![0u8] + (Seq::new((i - 1) as nat, |j: int| 0u8) + inc_spec(s.skip(i as int)))
            =~= Seq::new(i, |j: int| 0u8) + inc_spec(s.skip(i as int)));
    }
}

/// A keyed generator with a mutable nonce that advances after every draw.
/// Presents a fill-bytes style randomness interface whose outputs are
/// deterministic in (key, initial nonce, draw index).
pub struct Rng {
    prng: Prng,
    nonce: Vec<u8>,
}

impl Rng {
    /// The underlying secret key.
    pub closed spec fn key(self) -> Seq<u8> {
        self.prng.key()
    }

    /// The nonce the next draw will use.
    pub closed spec fn nonce(self) -> Seq<u8> {
        self.nonce@
    }

    /// Invariant: the wrapped generator is well formed.
    pub closed spec fn wf(self) -> bool {
        self.prng.wf()
    }

    /// Wrap a generator and an initial nonce.
    pub fn new(prng: Prng, nonce: Vec<u8>) -> (r: Rng)
        requires
            prng.wf(),
        ensures
            r.wf(),
            r.key() == prng.key(),
            r.nonce() == nonce@,
    {
        Rng { prng, nonce }
    }

    /// The nonce bytes the next draw will use.
    pub fn nonce_bytes(&self) -> (r: &Vec<u8>)
        ensures
            r@ == self.nonce(),
    {
        &self.nonce
    }

    /// Advance the nonce by one, growing it on full overflow.
    fn inc(&mut self)
        ensures
            final(self).nonce() == inc_spec(old(self).nonce()),
            final(self).key() == old(self).key(),
            final(self).wf() == old(self).wf(),
    {
        let ghost n0 = self.nonce@;
        let n = self.nonce.len();
        let mut i: usize = 0;
        while i < n
            invariant
                i <= n,
                n == self.nonce@.len(),
                n == n0.len(),
                n0 == old(self).nonce@,
                self.prng == old(self).prng,
                forall|j: int| 0 <= j < i ==> self.nonce@[j] == 0u8,
                forall|j: int| 0 <= j < i ==> n0[j] == 255u8,
                forall|j: int| i <= j < n ==> self.nonce@[j] == n0[j],
            decreases n - i,
        {
            let b = self.nonce[i];
            if b == 255 {
                self.nonce.set(i, 0);
                i += 1;
            } else {
                self.nonce.set(i, b + 1);
                proof {
                    lemma_inc_carry(n0, i as nat);
                    assert(n0.skip(i as int)[0] == b);
                    assert(inc_spec(n0.skip(i as int)) == n0.skip(i as int).update(
                        0,
                        (b + 1) as u8,
                    ));
                    assert(self.nonce@ =~= Seq::new(i as nat, |j: int| 0u8) + n0.skip(
                        i as int,
                    ).update(0, (b + 1) as u8));
                    assert(self.nonce@ =~= inc_spec(n0));
                }
                return;
            }
        }
        self.nonce.push(0u8);
        proof {
            lemma_inc_carry(n0, n as nat);
            assert(n0.skip(n as int) =~= Seq::<u8>::empty());
            assert(self.nonce@ =~= Seq::new(n as nat, |j: int| 0u8) + seq![0u8]);
            assert(self.nonce@ =~= inc_spec(n0));
        }
    }

    /// Overwrite `dest` with the next counter-mode output, then advance
    /// the nonce so no later draw repeats it.
    pub fn fill_bytes(&mut self, dest: &mut Vec<u8>)
        requires
            old(self).wf(),
        ensures
            final(self).wf(),
            final(dest)@ == gen_spec(old(self).key(), old(self).nonce(), old(dest)@.len()),
            final(dest)@.len() == old(dest)@.len(),
            final(self).key() == old(self).key(),
            final(self).nonce() == inc_spec(old(self).nonce()),
    {
        self.prng.gen(self.nonce.as_slice(), dest);
        self.inc();
    }

    /// `fill_bytes` behind a result, for callers that expect a fallible
    /// interface; counter-mode generation itself cannot fail.
    pub fn try_fill_bytes(&mut self, dest: &mut Vec<u8>) -> (r: Result<(), StreamsError>)
        requires
            old(self).wf(),
        ensures
            r is Ok,
            final(self).wf(),
            final(dest)@ == gen_spec(old(self).key(), old(self).nonce(), old(dest)@.len()),
            final(dest)@.len() == old(dest)@.len(),
            final(self).key() == old(self).key(),
            final(self).nonce() == inc_spec(old(self).nonce()),
    {
        self.fill_bytes(dest);
        Ok(())
    }

    /// The next four output bytes read as a little-endian word.
    pub fn next_u32(&mut self) -> (r: u32)
        requires
            old(self).wf(),
        ensures
            final(self).wf(),
            r == u32_from_le(gen_spec(old(self).key(), old(self).nonce(), 4)),
            final(self).key() == old(self).key(),
            final(self).nonce() == inc_spec(old(self).nonce()),
    {
        let mut v = crate::prng::zeroed(4);
        self.prng.gen(self.nonce.as_slice(), &mut v);
        self.inc();
        ((v[3] as u32) << 24) | ((v[2] as u32) << 16) | ((v[1] as u32) << 8) | (v[0] as u32)
    }

    /// The next eight output bytes read as a little-endian word.
    pub fn next_u64(&mut self) -> (r: u64)
        requires
            old(self).wf(),
        ensures
            final(self).wf(),
            r == u64_from_le(gen_spec(old(self).key(), old(self).nonce(), 8)),
            final(self).key() == old(self).key(),
            final(self).nonce() == inc_spec(old(self).nonce()),
    {
        let mut v = crate::prng::zeroed(8);
        self.prng.gen(self.nonce.as_slice(), &mut v);
        self.inc();
        ((v[7] as u64) << 56) | ((v[6] as u64) << 48) | ((v[5] as u64) << 40) | ((v[4] as u64)
            << 32) | ((v[3] as u64) << 24) | ((v[2] as u64) << 16) | ((v[1] as u64) << 8) | (
        v[0] as u64)
    }
}

/// Four bytes read as a little-endian 32-bit word.
pub open spec fn u32_from_le(s: Seq<u8>) -> u32
    recommends
        s.len() == 4,
{
    ((s[3] as u32) << 24) | ((s[2] as u32) << 16) | ((s[1] as u32) << 8) | (s[0] as u32)
}

/// Eight bytes read as a little-endian 64-bit word.
pub open spec fn u64_from_le(s: Seq<u8>) -> u64
    recommends
        s.len() == 8,
{
    ((s[7] as u64) << 56) | ((s[6] as u64) << 48) | ((s[5] as u64) << 40) | ((s[4] as u64) << 32)
        | ((s[3] as u64) << 24) | ((s[2] as u64) << 16) | ((s[1] as u64) << 8) | (s[0] as u64)
}

} // verus!
