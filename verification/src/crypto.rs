//! The SHA-1 hash used to derive labels.
//!
//! The specification functions below state the SHA-1 algorithm over
//! mathematical sequences: the message schedule, the eighty rounds of the
//! block compression, the chunk iteration and the length padding.  The
//! executable hasher is proved to compute exactly that function of the
//! bytes written to it.

use vstd::prelude::*;

verus! {

/// The initial SHA-1 chaining state.
pub open spec fn sha1_iv() -> Seq<u32> {
    seq![0x67452301u32, 0xefcdab89u32, 0x98badcfeu32, 0x10325476u32, 0xc3d2e1f0u32]
}

/// Left rotation of a 32-bit word.
pub open spec fn rotl(x: u32, n: u32) -> u32
    recommends
        0 < n < 32,
{
    (x << n) | (x >> ((32 - n) as u32))
}

/// The big-endian 32-bit word at position `i` of a 64-byte chunk.
pub open spec fn word_be(chunk: Seq<u8>, i: int) -> u32
    recommends
        chunk.len() == 64,
        0 <= i < 16,
{
    ((chunk[4 * i] as u32) << 24u32) | ((chunk[4 * i + 1] as u32) << 16u32) | ((chunk[4 * i
        + 2] as u32) << 8u32) | (chunk[4 * i + 3] as u32)
}

/// Word `i` of the SHA-1 message schedule of `chunk`.
pub open spec fn sha1_w(chunk: Seq<u8>, i: int) -> u32
    recommends
        chunk.len() == 64,
        0 <= i < 80,
    decreases i,
{
    if i < 16 {
        word_be(chunk, i)
    } else {
        rotl(
            sha1_w(chunk, i - 3) ^ sha1_w(chunk, i - 8) ^ sha1_w(chunk, i - 14) ^ sha1_w(
                chunk,
                i - 16,
            ),
            1,
        )
    }
}

/// The round function of round `i`.
pub open spec fn sha1_f(i: int, b: u32, c: u32, d: u32) -> u32 {
    if i < 20 {
        (b & c) | (!b & d)
    } else if i < 40 {
        b ^ c ^ d
    } else if i < 60 {
        (b & c) | (b & d) | (c & d)
    } else {
        b ^ c ^ d
    }
}

/// The round constant of round `i`.
pub open spec fn sha1_k(i: int) -> u32 {
    if i < 20 {
        0x5a827999u32
    } else if i < 40 {
        0x6ed9eba1u32
    } else if i < 60 {
        0x8f1bbcdcu32
    } else {
        0xca62c1d6u32
    }
}

/// One SHA-1 round applied to the five-word working state.
pub open spec fn sha1_round(chunk: Seq<u8>, st: Seq<u32>, i: int) -> Seq<u32>
    recommends
        st.len() == 5,
{
    seq![
        rotl(st[0], 5).wrapping_add(sha1_f(i, st[1], st[2], st[3])).wrapping_add(
            st[4],
        ).wrapping_add(sha1_k(i)).wrapping_add(sha1_w(chunk, i)),
        st[0],
        rotl(st[1], 30),
        st[2],
        st[3],
    ]
}

/// The working state after the first `n` rounds.
pub open spec fn sha1_rounds(chunk: Seq<u8>, st: Seq<u32>, n: int) -> Seq<u32>
    decreases n,
{
    if n <= 0 {
        st
    } else {
        sha1_round(chunk, sha1_rounds(chunk, st, n - 1), n - 1)
    }
}

/// The chaining state after compressing one 64-byte chunk into `st`.
pub open spec fn sha1_compress(st: Seq<u32>, chunk: Seq<u8>) -> Seq<u32>
    recommends
        st.len() == 5,
        chunk.len() == 64,
{
    let e = sha1_rounds(chunk, st, 80);
    seq![
        st[0].wrapping_add(e[0]),
        st[1].wrapping_add(e[1]),
        st[2].wrapping_add(e[2]),
        st[3].wrapping_add(e[3]),
        st[4].wrapping_add(e[4]),
    ]
}

/// The chaining state after compressing every complete 64-byte chunk of
/// `data` into `st`, front first.
pub open spec fn sha1_chunks(st: Seq<u32>, data: Seq<u8>) -> Seq<u32>
    decreases data.len(),
{
    if data.len() < 64 {
        st
    } else {
        sha1_chunks(sha1_compress(st, data.take(64)), data.skip(64))
    }
}

/// The big-endian bytes of the 64-bit value `x`.
pub open spec fn spec_u64_be_bytes(x: u64) -> Seq<u8> {
    Seq::new(8, |i: int| ((x >> (((7 - i) * 8) as u64)) & 0xff) as u8)
}

/// SHA-1 length padding: a `0x80` byte, zeroes up to 56 bytes modulo 64,
/// and the message length in bits as a big-endian 64-bit value.
pub open spec fn sha1_pad(msg: Seq<u8>) -> Seq<u8> {
    let r = (msg.len() + 1) % 64;
    let k: int = if r <= 56 {
        56 - r
    } else {
        120 - r
    };
    msg + seq![0x80u8] + Seq::new(k as nat, |i: int| 0u8) + spec_u64_be_bytes(
        ((msg.len() * 8) % 0x10000000000000000) as u64,
    )
}

/// The SHA-1 digest of `msg` computed from the chaining seed `seed`.
pub open spec fn sha1_digest(seed: Seq<u32>, msg: Seq<u8>) -> Seq<u32> {
    sha1_chunks(seed, sha1_pad(msg))
}

/// Compressing a multiple of 64 bytes and then more data is the same as
/// compressing the concatenation.
proof fn lemma_sha1_chunks_append(st: Seq<u32>, p: Seq<u8>, q: Seq<u8>)
    requires
        p.len() % 64 == 0,
    ensures
        sha1_chunks(st, p + q) == sha1_chunks(sha1_chunks(st, p), q),
    decreases p.len(),
{
    if p.len() == 0 {
        assert(p + q =~= q);
    } else {
        assert((p + q).take(64) =~= p.take(64));
        assert((p + q).skip(64) =~= p.skip(64) + q);
        assert(p.skip(64).len() % 64 == 0);
        lemma_sha1_chunks_append(sha1_compress(st, p.take(64)), p.skip(64), q);
    }
}

/// A sequence of exactly one chunk compresses in one step.
proof fn lemma_sha1_chunks_single(st: Seq<u32>, c: Seq<u8>)
    requires
        c.len() == 64,
    ensures
        sha1_chunks(st, c) == sha1_compress(st, c),
{
    assert(c.take(64) =~= c);
    assert(sha1_chunks(st, c) == sha1_chunks(sha1_compress(st, c.take(64)), c.skip(64)));
    assert(c.skip(64).len() == 0);
}

/// Left rotation of a 32-bit word.
fn rotl_word(x: u32, n: u32) -> (r: u32)
    requires
        0 < n < 32,
    ensures
        r == rotl(x, n),
{
    (x << n) | (x >> (32 - n))
}

/// Build a five-word array from its elements.
fn words5(x0: u32, x1: u32, x2: u32, x3: u32, x4: u32) -> (r: [u32; 5])
    ensures
        r@ =~= seq![x0, x1, x2, x3, x4],
{
    [x0, x1, x2, x3, x4]
}

/// Compress one 64-byte chunk into the chaining state.
fn sha1_block(state: &[u32; 5], chunk: &[u8]) -> (r: [u32; 5])
    requires
        chunk@.len() == 64,
    ensures
        r@ == sha1_compress(state@, chunk@),
{
    let ghost st0: Seq<u32> = state@;
    let mut w: Vec<u32> = Vec::new();
    let mut i: usize = 0;
    while i < 80
        invariant
            i <= 80,
            w@.len() == i,
            chunk@.len() == 64,
            forall|j: int| 0 <= j < i ==> w@[j] == sha1_w(chunk@, j),
        decreases 80 - i,
    {
        if i < 16 {
            let word = ((chunk[4 * i] as u32) << 24u32) | ((chunk[4 * i + 1] as u32) << 16u32) | ((
            chunk[4 * i + 2] as u32) << 8u32) | (chunk[4 * i + 3] as u32);
            w.push(word);
        } else {
            let x = w[i - 3] ^ w[i - 8] ^ w[i - 14] ^ w[i - 16];
            w.push(rotl_word(x, 1));
        }
        i = i + 1;
    }

    let mut a = state[0];
    let mut b = state[1];
    let mut c = state[2];
    let mut d = state[3];
    let mut e = state[4];
    proof {
        assert(seq![a, b, c, d, e] =~= sha1_rounds(chunk@, st0, 0));
    }
    let mut i: usize = 0;
    while i < 80
        invariant
            i <= 80,
            w@.len() == 80,
            chunk@.len() == 64,
            st0 == state@,
            st0.len() == 5,
            forall|j: int| 0 <= j < 80 ==> w@[j] == sha1_w(chunk@, j),
            seq![a, b, c, d, e] == sha1_rounds(chunk@, st0, i as int),
        decreases 80 - i,
    {
        let f: u32 = if i < 20 {
            (b & c) | (!b & d)
        } else if i < 40 {
            b ^ c ^ d
        } else if i < 60 {
            (b & c) | (b & d) | (c & d)
        } else {
            b ^ c ^ d
        };
        let k: u32 = if i < 20 {
            0x5a827999
        } else if i < 40 {
            0x6ed9eba1
        } else if i < 60 {
            0x8f1bbcdc
        } else {
            0xca62c1d6
        };
        let temp = rotl_word(a, 5).wrapping_add(f).wrapping_add(e).wrapping_add(k).wrapping_add(
            w[i],
        );
        proof {
            assert(seq![
                temp,
                a,
                rotl(b, 30),
                c,
                d,
            ] =~= sha1_round(chunk@, sha1_rounds(chunk@, st0, i as int), i as int));
        }
        e = d;
        d = c;
        c = rotl_word(b, 30);
        b = a;
        a = temp;
        i = i + 1;
    }
    let r = words5(
        state[0].wrapping_add(a),
        state[1].wrapping_add(b),
        state[2].wrapping_add(c),
        state[3].wrapping_add(d),
        state[4].wrapping_add(e),
    );
    proof {
        assert(r@ =~= sha1_compress(state@, chunk@));
    }
    r
}

/// The SHA-1 cryptographic hasher.
///
/// Bytes are absorbed by `write`; `finish` appends the length padding and
/// freezes the digest, which `fetch` hands out.  A hasher can be seeded
/// with an earlier digest to chain hashes.
pub struct Sha1 {
    state: [u32; 5],
    data: Vec<u8>,
    len: u64,
    finalized: bool,
    seed: Ghost<Seq<u32>>,
    msg: Ghost<Seq<u8>>,
}

impl Sha1 {
    /// The chaining seed this hasher started from.
    pub closed spec fn spec_seed(&self) -> Seq<u32> {
        self.seed@
    }

    /// Every byte written to this hasher, in order.
    pub closed spec fn spec_msg(&self) -> Seq<u8> {
        self.msg@
    }

    /// Whether the digest has been frozen.
    pub closed spec fn spec_finalized(&self) -> bool {
        self.finalized
    }

    /// The current chaining state.
    pub closed spec fn spec_state(&self) -> Seq<u32> {
        self.state@
    }

    /// The hasher invariant: the buffered bytes are the tail of the
    /// message behind the last complete chunk, the chaining state has
    /// absorbed everything before them, and a finalized hasher holds the
    /// digest of the whole message.
    pub closed spec fn inv(&self) -> bool {
        &&& self.seed@.len() == 5
        &&& self.msg@.len() * 8 <= u64::MAX
        &&& self.len == self.msg@.len() * 8
        &&& if self.finalized {
            &&& self.data@.len() == 0
            &&& self.state@ == sha1_digest(self.seed@, self.msg@)
        } else {
            &&& self.data@.len() < 64
            &&& self.data@.len() == self.msg@.len() % 64
            &&& self.data@ == self.msg@.skip(self.msg@.len() - self.data@.len())
            &&& self.state@ == sha1_chunks(
                self.seed@,
                self.msg@.take(self.msg@.len() - self.data@.len()),
            )
        }
    }

    /// Create a SHA-1 hasher with the standard initial state.
    pub fn new() -> (r: Sha1)
        ensures
            r.inv(),
            r.spec_seed() == sha1_iv(),
            r.spec_msg() == Seq::<u8>::empty(),
            !r.spec_finalized(),
    {
        let state = words5(0x67452301, 0xefcdab89, 0x98badcfe, 0x10325476, 0xc3d2e1f0);
        let r = Sha1 {
            state,
            data: Vec::new(),
            len: 0,
            finalized: false,
            seed: Ghost(sha1_iv()),
            msg: Ghost(Seq::empty()),
        };
        proof {
            assert(r.msg@.take(0) =~= Seq::<u8>::empty());
            assert(r.msg@.skip(0) =~= Seq::<u8>::empty());
            assert(state@ =~= sha1_iv());
        }
        r
    }

    /// Create a SHA-1 hasher chained from an earlier digest.
    pub fn from_seed(seed: [u32; 5]) -> (r: Sha1)
        ensures
            r.inv(),
            r.spec_seed() == seed@,
            r.spec_msg() == Seq::<u8>::empty(),
            !r.spec_finalized(),
    {
        let r = Sha1 {
            state: seed,
            data: Vec::new(),
            len: 0,
            finalized: false,
            seed: Ghost(seed@),
            msg: Ghost(Seq::empty()),
        };
        proof {
            assert(r.msg@.take(0) =~= Seq::<u8>::empty());
            assert(r.msg@.skip(0) =~= Seq::<u8>::empty());
        }
        r
    }

    /// Compress every complete 64-byte chunk buffered in `data`.
    fn process_full_chunks(&mut self)
        ensures
            final(self).data@ == old(self).data@.skip(
                old(self).data@.len() - old(self).data@.len() % 64,
            ),
            final(self).data@.len() == old(self).data@.len() % 64,
            final(self).state@ == sha1_chunks(
                old(self).state@,
                old(self).data@.take(old(self).data@.len() - old(self).data@.len() % 64),
            ),
            final(self).len == old(self).len,
            final(self).finalized == old(self).finalized,
            final(self).seed@ == old(self).seed@,
            final(self).msg@ == old(self).msg@,
    {
        let ghost orig_data: Seq<u8> = self.data@;
        let ghost orig_state: Seq<u32> = self.state@;
        while self.data.len() >= 64
            invariant
                self.data@.len() <= orig_data.len(),
                self.data@ == orig_data.skip(orig_data.len() - self.data@.len()),
                (orig_data.len() - self.data@.len()) % 64 == 0,
                self.state@ == sha1_chunks(
                    orig_state,
                    orig_data.take(orig_data.len() - self.data@.len()),
                ),
                self.len == old(self).len,
                self.finalized == old(self).finalized,
                self.seed@ == old(self).seed@,
                self.msg@ == old(self).msg@,
            decreases self.data@.len(),
        {
            let ghost consumed: int = orig_data.len() - self.data@.len();
            proof {
                assert(self.data@.len() >= 64);
                assert(0 <= consumed);
                assert(consumed + 64 <= orig_data.len());
            }
            let rest = self.data.split_off(64);
            let next = sha1_block(&self.state, self.data.as_slice());
            proof {
                let p = orig_data.take(consumed);
                let c = orig_data.subrange(consumed, consumed + 64);
                assert(c.len() == 64);
                assert(self.data@ =~= c);
                assert(orig_data.take(consumed + 64) =~= p + c);
                assert(orig_data.take(consumed + 64).len() % 64 == 0);
                lemma_sha1_chunks_append(orig_state, p, c);
                assert(sha1_chunks(orig_state, p + c) == sha1_chunks(
                    sha1_chunks(orig_state, p),
                    c,
                ));
                lemma_sha1_chunks_single(sha1_chunks(orig_state, p), c);
                assert(rest@ =~= orig_data.skip(consumed + 64));
            }
            self.state = next;
            self.data = rest;
        }
        proof {
            assert(orig_data.len() - self.data@.len() <= orig_data.len());
            assert(self.data@.len() == orig_data.len() % 64) by {
                assert((orig_data.len() - self.data@.len()) % 64 == 0);
                assert(self.data@.len() < 64);
            }
        }
    }

    /// Absorb a byte slice into the hash.
    pub fn write(&mut self, input: &[u8])
        requires
            old(self).inv(),
            !old(self).spec_finalized(),
            (old(self).spec_msg().len() + input@.len()) * 8 <= u64::MAX,
        ensures
            final(self).inv(),
            !final(self).spec_finalized(),
            final(self).spec_seed() == old(self).spec_seed(),
            final(self).spec_msg() == old(self).spec_msg() + input@,
    {
        self.data.extend_from_slice(input);
        self.len = self.len + (input.len() as u64) * 8;
        proof {
            self.msg@ = self.msg@ + input@;
        }
        let ghost pre_data: Seq<u8> = self.data@;
        let ghost pre_state: Seq<u32> = self.state@;
        let ghost old_full: int = old(self).msg@.len() - old(self).data@.len();
        self.process_full_chunks();
        proof {
            let msg = self.msg@;
            let full: int = msg.len() - msg.len() % 64;
            assert(pre_data =~= msg.skip(old_full));
            assert(pre_data.len() == msg.len() - old_full);
            assert(pre_data.len() % 64 == (msg.len() - old_full) % 64);
            assert(old_full % 64 == 0) by {
                assert(old(self).data@.len() == old(self).msg@.len() % 64);
            }
            assert(pre_data.len() % 64 == msg.len() % 64);
            assert(self.data@.len() == msg.len() % 64);
            assert(self.data@ =~= msg.skip(msg.len() - self.data@.len()));
            // the state has absorbed the old full prefix plus the newly
            // completed chunks, which together are the new full prefix
            let p = old(self).msg@.take(old_full);
            let q = pre_data.take(pre_data.len() - pre_data.len() % 64);
            assert(pre_state == sha1_chunks(self.seed@, p));
            assert(self.state@ == sha1_chunks(pre_state, q));
            lemma_sha1_chunks_append(self.seed@, p, q);
            assert(p + q =~= msg.take(full));
            assert(self.state@ == sha1_chunks(self.seed@, msg.take(full)));
        }
    }

    /// Append the length padding, compress the final chunks and freeze
    /// the digest.  Finishing an already finalized hasher changes
    /// nothing.
    #[verifier::rlimit(100)]
    pub fn finish(&mut self)
        requires
            old(self).inv(),
        ensures
            final(self).inv(),
            final(self).spec_finalized(),
            final(self).spec_seed() == old(self).spec_seed(),
            final(self).spec_msg() == old(self).spec_msg(),
            final(self).spec_state() == sha1_digest(old(self).spec_seed(), old(self).spec_msg()),
    {
        if self.finalized {
            return ;
        }
        let ghost msg: Seq<u8> = self.msg@;
        let ghost full: int = msg.len() - msg.len() % 64;
        let bit_len: u64 = self.len;

        self.data.push(0x80);
        let r: usize = self.data.len() % 64;
        let k: usize = if r <= 56 {
            56 - r
        } else {
            120 - r
        };
        let mut i: usize = 0;
        while i < k
            invariant
                i <= k,
                self.data@.len() == old(self).data@.len() + 1 + i,
                self.data@ == old(self).data@ + seq![0x80u8] + Seq::new(i as nat, |j: int| 0u8),
                self.state == old(self).state,
                self.len == old(self).len,
                self.finalized == old(self).finalized,
                self.seed == old(self).seed,
                self.msg == old(self).msg,
            decreases k - i,
        {
            self.data.push(0);
            proof {
                assert(self.data@ =~= old(self).data@ + seq![0x80u8] + Seq::new(
                    (i + 1) as nat,
                    |j: int| 0u8,
                ));
            }
            i = i + 1;
        }
        let mut j: usize = 0;
        let ghost padded: Seq<u8> = self.data@;
        while j < 8
            invariant
                j <= 8,
                bit_len == self.len,
                self.data@ == padded + spec_u64_be_bytes(bit_len).take(j as int),
                self.state == old(self).state,
                self.len == old(self).len,
                self.finalized == old(self).finalized,
                self.seed == old(self).seed,
                self.msg == old(self).msg,
            decreases 8 - j,
        {
            let shift: u64 = (56 - 8 * (j as u64)) as u64;
            self.data.push(((bit_len >> shift) & 0xff) as u8);
            proof {
                assert(self.data@ =~= padded + spec_u64_be_bytes(bit_len).take(j + 1));
            }
            j = j + 1;
        }
        proof {
            assert(self.data@ =~= padded + spec_u64_be_bytes(bit_len));
        }

        let ghost pre_data: Seq<u8> = self.data@;
        let ghost pre_state: Seq<u32> = self.state@;
        self.process_full_chunks();
        self.finalized = true;

        proof {
            // the buffered tail plus the appended padding is the padded
            // message's tail behind the last already-compressed chunk
            assert(msg.len() * 8 <= u64::MAX);
            assert(bit_len == ((msg.len() * 8) % 0x10000000000000000) as u64);
            assert(old(self).data@ =~= msg.skip(full));
            assert(sha1_pad(msg) =~= msg.take(full) + pre_data);
            assert(pre_data.len() % 64 == 0) by {
                assert(sha1_pad(msg).len() % 64 == 0) by {
                    assert(spec_u64_be_bytes(bit_len).len() == 8);
                };
                assert(full % 64 == 0);
            }
            assert(self.data@.len() == 0);
            assert(self.data@ =~= Seq::<u8>::empty());
            assert(self.state@ == sha1_chunks(pre_state, pre_data.take(pre_data.len() as int)));
            assert(pre_data.take(pre_data.len() as int) =~= pre_data);
            lemma_sha1_chunks_append(self.seed@, msg.take(full), pre_data);
            assert(self.state@ == sha1_chunks(self.seed@, sha1_pad(msg)));
        }
    }

    /// Read the current chaining state; after `finish` this is the
    /// digest of the written message.
    pub fn fetch(&self) -> (r: [u32; 5])
        ensures
            r@ == self.spec_state(),
    {
        self.state
    }

    /// Freeze the digest and hand it out in one step.
    pub fn finish_and_fetch(&mut self) -> (r: [u32; 5])
        requires
            old(self).inv(),
        ensures
            final(self).inv(),
            final(self).spec_finalized(),
            final(self).spec_msg() == old(self).spec_msg(),
            final(self).spec_seed() == old(self).spec_seed(),
            r@ == sha1_digest(old(self).spec_seed(), old(self).spec_msg()),
    {
        self.finish();
        self.fetch()
    }
}

} // verus!
