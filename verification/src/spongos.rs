//! Duplex-sponge state machine over the Keccak-f[1600] permutation.
//!
//! The permutation itself is an opaque primitive supplied by an outside
//! crate; everything around it — the byte-level absorb/commit/squeeze
//! discipline — is verified here against a mathematical model of the
//! sponge state.

use vstd::prelude::*;

verus! {

/// Size of the permutation state in bytes (1600 bits).
pub const STATE_SIZE: usize = 200;

/// Sponge capacity in bytes (256 bits): the part of the state never
/// exposed by squeezing.
pub const CAPACITY: usize = 32;

/// Sponge rate in bytes: the part of the state that absorb and squeeze
/// walk through before the permutation is applied again.
pub const RATE: usize = STATE_SIZE - CAPACITY;

/// What Keccak-f[1600] returns on a 200-byte state. The permutation is a
/// deterministic function of the state alone; its pages-long round function
/// is not restated here.
pub uninterp spec fn perm_of(st: Seq<u8>) -> Seq<u8>;

/// Relies on keccak::f1600: the Keccak-f[1600] permutation over 25
/// little-endian 64-bit lanes, applied in place. Its result is a function
/// of the state alone, here named `perm_of`.
#[verifier::external_body]
fn permute(st: &mut Vec<u8>)
    requires
        old(st)@.len() == STATE_SIZE,
    ensures
        final(st)@ == perm_of(old(st)@),
        final(st)@.len() == STATE_SIZE,
{
    let mut lanes = [0u64; 25];
    for (i, chunk) in st.chunks_exact(8).enumerate() {
        lanes[i] = u64::from_le_bytes(chunk.try_into().unwrap());
    }
    keccak::f1600(&mut lanes);
    for (i, chunk) in st.chunks_exact_mut(8).enumerate() {
        chunk.copy_from_slice(&lanes[i].to_le_bytes());
    }
}

/// The all-zero permutation state a fresh sponge starts from.
pub open spec fn zero_state() -> Seq<u8> {
    Seq::new(STATE_SIZE as nat, |i: int| 0u8)
}

/// Position after one absorbed or squeezed byte: the walk through the rate
/// wraps to the start whenever the permutation is applied.
pub open spec fn step_pos(pos: nat) -> nat {
    if pos + 1 == RATE {
        0
    } else {
        pos + 1
    }
}

/// State after absorbing one byte at `pos`: the byte is folded in by XOR,
/// and the permutation runs when the rate is full.
pub open spec fn absorb_byte(st: Seq<u8>, pos: nat, b: u8) -> Seq<u8> {
    let st1 = st.update(pos as int, st[pos as int] ^ b);
    if pos + 1 == RATE {
        perm_of(st1)
    } else {
        st1
    }
}

/// State after absorbing a whole byte sequence.
pub open spec fn absorb_state(st: Seq<u8>, pos: nat, x: Seq<u8>) -> Seq<u8>
    decreases x.len(),
{
    if x.len() == 0 {
        st
    } else {
        absorb_state(absorb_byte(st, pos, x[0]), step_pos(pos), x.drop_first())
    }
}

/// Rate position after absorbing a whole byte sequence.
pub open spec fn absorb_pos(pos: nat, x: Seq<u8>) -> nat
    decreases x.len(),
{
    if x.len() == 0 {
        pos
    } else {
        absorb_pos(step_pos(pos), x.drop_first())
    }
}

/// State after a commit: absorbed material is finalized through the
/// permutation, unless nothing was absorbed since the last boundary.
pub open spec fn commit_state(st: Seq<u8>, pos: nat) -> Seq<u8> {
    if pos == 0 {
        st
    } else {
        perm_of(st)
    }
}

/// State after squeezing one byte at `pos`: the byte read out is erased
/// from the outer state, and the permutation runs when the rate is spent.
pub open spec fn squeeze_byte(st: Seq<u8>, pos: nat) -> Seq<u8> {
    let st1 = st.update(pos as int, 0u8);
    if pos + 1 == RATE {
        perm_of(st1)
    } else {
        st1
    }
}

/// State after squeezing `n` bytes.
pub open spec fn squeeze_state(st: Seq<u8>, pos: nat, n: nat) -> Seq<u8>
    decreases n,
{
    if n == 0 {
        st
    } else {
        squeeze_state(squeeze_byte(st, pos), step_pos(pos), (n - 1) as nat)
    }
}

/// Rate position after squeezing `n` bytes.
pub open spec fn squeeze_pos(pos: nat, n: nat) -> nat
    decreases n,
{
    if n == 0 {
        pos
    } else {
        squeeze_pos(step_pos(pos), (n - 1) as nat)
    }
}

/// The `n` bytes squeezed from state `st` at position `pos`.
pub open spec fn squeeze_out(st: Seq<u8>, pos: nat, n: nat) -> Seq<u8>
    decreases n,
{
    if n == 0 {
        Seq::empty()
    } else {
        seq![st[pos as int]] + squeeze_out(squeeze_byte(st, pos), step_pos(pos), (n - 1) as nat)
    }
}

/// Duplex sponge: a permutation state, the current position in its rate,
/// and a mode flag. Squeezing is legal only after a commit with no
/// intervening absorb; the contracts enforce that ordering statically.
pub struct Spongos {
    state: Vec<u8>,
    pos: usize,
    squeeze_ready: bool,
}

impl Spongos {
    /// The permutation state, as the model sees it.
    pub closed spec fn state(self) -> Seq<u8> {
        self.state@
    }

    /// The current position within the rate.
    pub closed spec fn pos(self) -> nat {
        self.pos as nat
    }

    /// Whether a commit has happened since the last absorb, so that
    /// squeezing is legal.
    pub closed spec fn squeeze_ready(self) -> bool {
        self.squeeze_ready
    }

    /// Structural invariant: full-size state, position inside the rate.
    pub closed spec fn wf(self) -> bool {
        self.state@.len() == STATE_SIZE && self.pos < RATE
    }

    /// A fresh sponge: zeroed state, start of the rate, absorb-ready.
    pub fn init() -> (s: Spongos)
        ensures
            s.wf(),
            s.state() == zero_state(),
            s.pos() == 0,
            !s.squeeze_ready(),
    {
        let mut state: Vec<u8> = Vec::new();
        let mut i: usize = 0;
        while i < STATE_SIZE
            invariant
                i <= STATE_SIZE,
                state@.len() == i,
                forall|j: int| 0 <= j < i ==> state@[j] == 0u8,
            decreases STATE_SIZE - i,
        {
            state.push(0u8);
            i += 1;
        }
        proof {
            assert(state@ =~= zero_state());
        }
        Spongos { state, pos: 0, squeeze_ready: false }
    }

    /// Fold `x` into the state. Legal in any mode; it opens a new
    /// absorb round, so a commit is needed before the next squeeze.
    pub fn absorb(&mut self, x: &[u8])
        requires
            old(self).wf(),
        ensures
            final(self).wf(),
            final(self).state() == absorb_state(old(self).state(), old(self).pos(), x@),
            final(self).pos() == absorb_pos(old(self).pos(), x@),
            !final(self).squeeze_ready(),
    {
        self.squeeze_ready = false;
        let ghost st0 = self.state@;
        let ghost pos0 = self.pos as nat;
        let n = x.len();
        proof {
            assert(x@.skip(0) =~= x@);
        }
        let mut i: usize = 0;
        while i < n
            invariant
                i <= n,
                n == x@.len(),
                self.wf(),
                !self.squeeze_ready,
                absorb_state(st0, pos0, x@) == absorb_state(
                    self.state@,
                    self.pos as nat,
                    x@.skip(i as int),
                ),
                absorb_pos(pos0, x@) == absorb_pos(self.pos as nat, x@.skip(i as int)),
            decreases n - i,
        {
            let ghost st_before = self.state@;
            let ghost pos_before = self.pos as nat;
            let b = x[i];
            let cur = self.state[self.pos];
            self.state.set(self.pos, cur ^ b);
            if self.pos + 1 == RATE {
                permute(&mut self.state);
                self.pos = 0;
            } else {
                self.pos = self.pos + 1;
            }
            proof {
                assert(self.state@ == absorb_byte(st_before, pos_before, b));
                assert(self.pos as nat == step_pos(pos_before));
                assert(x@.skip(i as int)[0] == x@[i as int]);
                assert(x@.skip(i as int).drop_first() =~= x@.skip(i + 1));
            }
            i += 1;
        }
        proof {
            assert(x@.skip(n as int) =~= Seq::<u8>::empty());
        }
    }

    /// Finalize the absorbed material through the permutation and switch
    /// to squeeze-ready mode.
    pub fn commit(&mut self)
        requires
            old(self).wf(),
        ensures
            final(self).wf(),
            final(self).state() == commit_state(old(self).state(), old(self).pos()),
            final(self).pos() == 0,
            final(self).squeeze_ready(),
    {
        if self.pos != 0 {
            permute(&mut self.state);
            self.pos = 0;
        }
        self.squeeze_ready = true;
    }

    /// Overwrite `y` with pseudorandom bytes squeezed from the state.
    /// Each squeeze advances the state, so consecutive squeezes never
    /// repeat; it is legal only after a commit.
    pub fn squeeze(&mut self, y: &mut Vec<u8>)
        requires
            old(self).wf(),
            old(self).squeeze_ready(),
        ensures
            final(self).wf(),
            final(self).squeeze_ready(),
            final(y)@ == squeeze_out(old(self).state(), old(self).pos(), old(y)@.len()),
            final(y)@.len() == old(y)@.len(),
            final(self).state() == squeeze_state(old(self).state(), old(self).pos(), old(y)@.len()),
            final(self).pos() == squeeze_pos(old(self).pos(), old(y)@.len()),
    {
        let ghost st0 = self.state@;
        let ghost pos0 = self.pos as nat;
        let n = y.len();
        proof {
            assert(y@.take(0) + squeeze_out(self.state@, self.pos as nat, n as nat) =~= squeeze_out(
                self.state@,
                self.pos as nat,
                n as nat,
            ));
        }
        let mut i: usize = 0;
        while i < n
            invariant
                i <= n,
                n == y@.len(),
                self.wf(),
                self.squeeze_ready,
                squeeze_out(st0, pos0, n as nat) == y@.take(i as int) + squeeze_out(
                    self.state@,
                    self.pos as nat,
                    (n - i) as nat,
                ),
                squeeze_state(st0, pos0, n as nat) == squeeze_state(
                    self.state@,
                    self.pos as nat,
                    (n - i) as nat,
                ),
                squeeze_pos(pos0, n as nat) == squeeze_pos(self.pos as nat, (n - i) as nat),
            decreases n - i,
        {
            let ghost st_before = self.state@;
            let ghost pos_before = self.pos as nat;
            let ghost y_before = y@;
            let b = self.state[self.pos];
            y.set(i, b);
            self.state.set(self.pos, 0u8);
            if self.pos + 1 == RATE {
                permute(&mut self.state);
                self.pos = 0;
            } else {
                self.pos = self.pos + 1;
            }
            proof {
                assert(self.state@ == squeeze_byte(st_before, pos_before));
                assert(self.pos as nat == step_pos(pos_before));
                assert(y@.take(i + 1) =~= y_before.take(i as int) + seq![b]);
                assert(y@.take(i as int) =~= y_before.take(i as int));
                assert(squeeze_out(st_before, pos_before, (n - i) as nat) == seq![b]
                    + squeeze_out(self.state@, self.pos as nat, (n - i - 1) as nat));
                assert(y@.take(i as int) + (seq![b] + squeeze_out(
                    self.state@,
                    self.pos as nat,
                    (n - i - 1) as nat,
                )) =~= y@.take(i + 1) + squeeze_out(
                    self.state@,
                    self.pos as nat,
                    (n - i - 1) as nat,
                ));
            }
            i += 1;
        }
        proof {
            assert(y@.take(n as int) =~= y@);
        }
    }

    /// Squeeze `n` bytes into a fresh buffer.
    pub fn squeeze_buf(&mut self, n: usize) -> (r: Vec<u8>)
        requires
            old(self).wf(),
            old(self).squeeze_ready(),
        ensures
            final(self).wf(),
            final(self).squeeze_ready(),
            r@ == squeeze_out(old(self).state(), old(self).pos(), n as nat),
            r@.len() == n,
            final(self).state() == squeeze_state(old(self).state(), old(self).pos(), n as nat),
            final(self).pos() == squeeze_pos(old(self).pos(), n as nat),
    {
        let mut r: Vec<u8> = Vec::new();
        let mut i: usize = 0;
        while i < n
            invariant
                i <= n,
                r@.len() == i,
            decreases n - i,
        {
            r.push(0u8);
            i += 1;
        }
        self.squeeze(&mut r);
        r
    }
}

} // verus!
