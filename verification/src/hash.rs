//! The 64-bit FNV-1a hash used to derive name tags.
//!
//! The hasher folds one byte at a time into a 64-bit state: the byte is
//! xor-ed into the state and the state is multiplied by the FNV prime,
//! wrapping on overflow.

use vstd::prelude::*;

verus! {

/// The FNV-1a offset basis: the state an unseeded hasher starts from.
pub const FNV_OFFSET_BASIS: u64 = 0xcbf29ce484222325;

/// The FNV-1a 64-bit prime.
pub const FNV_PRIME: u64 = 0x100000001b3;

/// One FNV-1a round: fold the byte `b` into the state `h`.
pub open spec fn fnv1a64_step(h: u64, b: u8) -> u64 {
    (h ^ (b as u64)).wrapping_mul(FNV_PRIME)
}

/// The state reached by folding every byte of `data`, in order, into `seed`.
pub open spec fn fnv1a64(seed: u64, data: Seq<u8>) -> u64
    decreases data.len(),
{
    if data.len() == 0 {
        seed
    } else {
        fnv1a64_step(fnv1a64(seed, data.drop_last()), data.last())
    }
}

/// An incremental FNV-1a 64-bit hasher.
///
/// The hasher is a plain value: `write` consumes it and returns the advanced
/// state, so hash chains compose by method chaining.
#[derive(Debug, Clone, Copy, PartialEq, Eq, Structural)]
pub struct Fnv1a64ConstHasher {
    state: u64,
}

impl View for Fnv1a64ConstHasher {
    type V = u64;

    /// The abstract value of a hasher is its 64-bit state.
    closed spec fn view(&self) -> u64 {
        self.state
    }
}

impl Fnv1a64ConstHasher {
    /// Start a hasher from the FNV offset basis.
    pub fn new() -> (r: Fnv1a64ConstHasher)
        ensures
            r@ == FNV_OFFSET_BASIS,
    {
        Fnv1a64ConstHasher { state: FNV_OFFSET_BASIS }
    }

    /// Start a hasher whose initial state is `seed`.
    pub fn from_seed(seed: u64) -> (r: Fnv1a64ConstHasher)
        ensures
            r@ == seed,
    {
        Fnv1a64ConstHasher { state: seed }
    }

    /// Hash a whole byte slice from the offset basis.
    pub fn from_const(data: &[u8]) -> (r: Fnv1a64ConstHasher)
        ensures
            r@ == fnv1a64(FNV_OFFSET_BASIS, data@),
    {
        Fnv1a64ConstHasher::new().write(data)
    }

    /// Fold every byte of `data`, in order, into the state.
    pub fn write(self, data: &[u8]) -> (r: Fnv1a64ConstHasher)
        ensures
            r@ == fnv1a64(self@, data@),
    {
        let mut state: u64 = self.state;
        let mut i: usize = 0;
        while i < data.len()
            invariant
                i <= data.len(),
                state == fnv1a64(self@, data@.take(i as int)),
            decreases data.len() - i,
        {
            proof {
                assert(data@.take(i + 1).drop_last() =~= data@.take(i as int));
                assert(data@.take(i + 1).last() == data@[i as int]);
            }
            state = (state ^ (data[i] as u64)).wrapping_mul(FNV_PRIME);
            i = i + 1;
        }
        proof {
            assert(data@.take(data@.len() as int) =~= data@);
        }
        Fnv1a64ConstHasher { state }
    }

    /// Read the accumulated hash value.
    pub fn finish(&self) -> (r: u64)
        ensures
            r == self@,
    {
        self.state
    }
}

} // verus!
