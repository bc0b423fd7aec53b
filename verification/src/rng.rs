//! The deterministic xorshift generator that places rectangles and colors images.
use vstd::prelude::*;

verus! {

/// One xorshift64 step (shifts 13, 7, 17).
pub open spec fn xorshift_step(s: u64) -> u64 {
    let a = s ^ (s << 13u64);
    let b = a ^ (a >> 7u64);
    b ^ (b << 17u64)
}

/// The state after `n` steps from `s`.
pub open spec fn xorshift_iterate(s: u64, n: nat) -> u64
    decreases n,
{
    if n == 0 {
        s
    } else {
        xorshift_step(xorshift_iterate(s, (n - 1) as nat))
    }
}

/// A xorshift64 pseudo-random generator.
#[derive(Debug)]
pub struct Rng {
    pub state: u64,
}

impl Rng {
    /// A generator whose state is `seed`.
    pub fn new(seed: u64) -> (r: Rng)
        ensures
            r.state == seed,
    {
        Rng { state: seed }
    }

    /// Advances the state by one step and returns the new state.
    pub fn next_u64(&mut self) -> (v: u64)
        ensures
            v == xorshift_step(old(self).state),
            final(self).state == v,
    {
        let mut state = self.state;
        state = state ^ (state << 13u64);
        state = state ^ (state >> 7u64);
        state = state ^ (state << 17u64);
        self.state = state;
        state
    }

    /// Three color channels: the low bytes of the next three outputs.
    pub fn color(&mut self) -> (c: [u8; 3])
        ensures
            c[0] == xorshift_iterate(old(self).state, 1) as u8,
            c[1] == xorshift_iterate(old(self).state, 2) as u8,
            c[2] == xorshift_iterate(old(self).state, 3) as u8,
            final(self).state == xorshift_iterate(old(self).state, 3),
    {
        proof {
            reveal_with_fuel(xorshift_iterate, 4);
        }
        let r = self.next_u64() as u8;
        let g = self.next_u64() as u8;
        let b = self.next_u64() as u8;
        [r, g, b]
    }
}

/// The seed of the generator that paints texture `image_index`: each
/// texture of a pool gets its own deterministic colors and wave frequency.
pub fn texture_seed(image_index: usize) -> (s: u64)
    requires
        (image_index + 1) * 0x9E37_79B9 <= u64::MAX,
    ensures
        s == 0xCAFE_BABEu64 ^ (((image_index + 1) * 0x9E37_79B9) as u64),
{
    0xCAFE_BABEu64 ^ ((image_index as u64 + 1) * 0x9E37_79B9)
}

/// A generator started from a nonzero seed never reaches the zero state, so
/// it never gets stuck emitting zeros.
pub proof fn lemma_xorshift_nonzero(s: u64)
    requires
        s != 0,
    ensures
        xorshift_step(s) != 0,
{
    assert(s != 0 ==> (s ^ (s << 13u64)) != 0) by (bit_vector);
    let a = s ^ (s << 13u64);
    assert(a != 0 ==> (a ^ (a >> 7u64)) != 0) by (bit_vector);
    let b = a ^ (a >> 7u64);
    assert(b != 0 ==> (b ^ (b << 17u64)) != 0) by (bit_vector);
}

/// From a nonzero seed, every later state is nonzero.
pub proof fn lemma_xorshift_iterate_nonzero(s: u64, n: nat)
    requires
        s != 0,
    ensures
        xorshift_iterate(s, n) != 0,
    decreases n,
{
    if n > 0 {
        lemma_xorshift_iterate_nonzero(s, (n - 1) as nat);
        lemma_xorshift_nonzero(xorshift_iterate(s, (n - 1) as nat));
    }
}

} // verus!
