//! Identity types: indexes, 64-bit name tags and 160-bit labels.
//!
//! An `Id` is an index that knows an invalid value.  A `Tag` is a 64-bit
//! identifier that is either eight printable bytes packed little-endian
//! (hash bit clear) or an FNV-1a hash of a longer name (hash bit set).
//! A `Label` is a 160-bit SHA-1 identity for primitive instances.

use vstd::prelude::*;
use vstd::string::StringSliceAdditionalSpecFns;
use crate::crypto::{sha1_digest, sha1_iv, Sha1};
use crate::hash::{fnv1a64, Fnv1a64ConstHasher, FNV_OFFSET_BASIS};

verus! {

/// The bit that marks a tag value as hashed rather than packed text.
pub const TAG_HASH_BIT: u64 = 0x8000000000000000;

/// The mask selecting the 63 value bits of a tag.
pub const TAG_HASH_MASK: u64 = 0x7fffffffffffffff;

/// The eight bytes of `b`, packed little-endian into one value.
pub open spec fn spec_pack_le(b: Seq<u8>) -> int
    recommends
        b.len() == 8,
{
    b[0] + b[1] * 0x100 + b[2] * 0x10000 + b[3] * 0x1000000 + b[4] * 0x100000000 + b[5]
        * 0x10000000000 + b[6] * 0x1000000000000 + b[7] * 0x100000000000000
}

/// The little-endian bytes of the 64-bit value `v`.
pub open spec fn spec_le_bytes(v: u64) -> Seq<u8> {
    Seq::new(8, |i: int| ((v >> (i * 8)) & 0xff) as u8)
}

/// An index with a designated invalid value.
///
/// In contrast to a flat index an `Id` can express "no index"; the
/// invalid value is all-ones.
#[derive(Debug, Clone, Copy, PartialEq, Eq, Structural)]
pub struct Id {
    index: usize,
}

impl Id {
    /// The index this id stands for.
    pub closed spec fn spec_index(&self) -> usize {
        self.index
    }

    /// Whether the id is distinct from the invalid value.
    pub open spec fn spec_is_valid(&self) -> bool {
        self.spec_index() != usize::MAX
    }

    /// Create an id with the given index number.
    pub fn new(id: usize) -> (r: Id)
        ensures
            r.spec_index() == id,
    {
        Id { index: id }
    }

    /// The invalid id.
    pub fn invalid() -> (r: Id)
        ensures
            r.spec_index() == usize::MAX,
            !r.spec_is_valid(),
    {
        Id { index: usize::MAX }
    }

    /// Get the id as an index.  Only valid ids index anything.
    pub fn index(&self) -> (r: usize)
        requires
            self.spec_is_valid(),
        ensures
            r == self.spec_index(),
    {
        self.index
    }

    /// Check validity of the id.
    pub fn is_valid(&self) -> (r: bool)
        ensures
            r == self.spec_is_valid(),
    {
        self.index != usize::MAX
    }

    /// Overwrite the id with the invalid value.
    pub fn invalidate(&mut self)
        ensures
            final(self).spec_index() == usize::MAX,
            !final(self).spec_is_valid(),
    {
        self.index = usize::MAX;
    }
}

/// A name tag.
///
/// A tag is a 64-bit identifier with a capacity to be human readable: it
/// is either an eight-character string packed little-endian with the hash
/// bit clear, or an FNV-1a hash with the hash bit set.  All-ones is the
/// invalid tag.
#[derive(Debug, Clone, Copy, PartialEq, Eq, Structural)]
pub struct Tag {
    value: u64,
}

impl View for Tag {
    type V = u64;

    /// The abstract value of a tag is its 64-bit value.
    closed spec fn view(&self) -> u64 {
        self.value
    }
}

impl Tag {
    /// Whether the tag is distinct from the invalid value.
    pub open spec fn spec_is_valid(&self) -> bool {
        self@ != u64::MAX
    }

    /// Create a tag from eight literal bytes.
    ///
    /// The bytes are regarded as text: they are packed little-endian and
    /// the hash bit is cleared.
    pub fn new(tag: &[u8; 8]) -> (r: Tag)
        ensures
            r@ == spec_pack_le(tag@) as u64 & TAG_HASH_MASK,
    {
        let b0 = tag[0] as u64;
        let b1 = tag[1] as u64;
        let b2 = tag[2] as u64;
        let b3 = tag[3] as u64;
        let b4 = tag[4] as u64;
        let b5 = tag[5] as u64;
        let b6 = tag[6] as u64;
        let b7 = tag[7] as u64;
        let packed = b0 + b1 * 0x100 + b2 * 0x10000 + b3 * 0x1000000 + b4 * 0x100000000 + b5
            * 0x10000000000 + b6 * 0x1000000000000 + b7 * 0x100000000000000;
        Tag { value: packed & TAG_HASH_MASK }
    }

    /// Create a tag from a raw value, unaltered.
    pub fn from_raw(tag: u64) -> (r: Tag)
        ensures
            r@ == tag,
    {
        Tag { value: tag }
    }

    /// Create a tag from a constant value regarded as non-text: the hash
    /// bit is set.
    pub fn from_const(tag: u64) -> (r: Tag)
        ensures
            r@ == tag | TAG_HASH_BIT,
    {
        Tag { value: tag | TAG_HASH_BIT }
    }

    /// Create a tag by hashing the passed string.
    pub fn from_str(tag: &str) -> (r: Tag)
        ensures
            r@ == fnv1a64(FNV_OFFSET_BASIS, tag.spec_bytes()) | TAG_HASH_BIT,
    {
        Tag::from_const(Fnv1a64ConstHasher::from_const(tag.as_bytes()).finish())
    }

    /// The invalid tag.
    pub fn invalid() -> (r: Tag)
        ensures
            r@ == u64::MAX,
            !r.spec_is_valid(),
    {
        Tag { value: u64::MAX }
    }

    /// Derive a tag by folding another tag into this one.  The result is
    /// always a hashed tag.
    pub fn append_tag(self, tag: Tag) -> (r: Tag)
        ensures
            r@ == fnv1a64(self@, spec_le_bytes(tag@)) | TAG_HASH_BIT,
    {
        let bytes = le_bytes(tag.value());
        Tag::from_const(Fnv1a64ConstHasher::from_seed(self.value).write(bytes.as_slice()).finish())
    }

    /// Derive a tag by folding a string into this one.  The result is
    /// always a hashed tag.
    pub fn append_str(self, tag: &str) -> (r: Tag)
        ensures
            r@ == fnv1a64(self@, tag.spec_bytes()) | TAG_HASH_BIT,
    {
        Tag::from_const(Fnv1a64ConstHasher::from_seed(self.value).write(tag.as_bytes()).finish())
    }

    /// Check if the tag is valid.
    pub fn is_valid(&self) -> (r: bool)
        ensures
            r == self.spec_is_valid(),
    {
        self.value != u64::MAX
    }

    /// Get the tag value.
    pub fn value(&self) -> (r: u64)
        ensures
            r == self@,
    {
        self.value
    }

    /// Overwrite the tag with the invalid value.
    pub fn invalidate(&mut self)
        ensures
            final(self)@ == u64::MAX,
    {
        self.value = u64::MAX;
    }
}

/// The little-endian bytes of `v`, as a vector.
fn le_bytes(v: u64) -> (r: Vec<u8>)
    ensures
        r@ == spec_le_bytes(v),
{
    let mut out: Vec<u8> = Vec::new();
    let mut i: usize = 0;
    while i < 8
        invariant
            i <= 8,
            out@.len() == i,
            forall|j: int| 0 <= j < i ==> out@[j] == spec_le_bytes(v)[j],
        decreases 8 - i,
    {
        out.push(((v >> ((i as u64) * 8)) & 0xff) as u8);
        i = i + 1;
    }
    proof {
        assert(out@ =~= spec_le_bytes(v));
    }
    out
}

/// A name label: an identifier expressed as a SHA-1 hash.
///
/// The invalid label is all-ones; no known byte sequence hashes to it.
#[derive(Debug, Clone, Copy, PartialEq, Eq)]
pub struct Label {
    hash: [u32; 5],
}

impl View for Label {
    type V = Seq<u32>;

    /// The abstract value of a label is its five 32-bit words.
    closed spec fn view(&self) -> Seq<u32> {
        self.hash@
    }
}

impl Label {
    /// Whether the label is distinct from the invalid value.
    pub open spec fn spec_is_valid(&self) -> bool {
        self@ != seq![u32::MAX, u32::MAX, u32::MAX, u32::MAX, u32::MAX]
    }

    /// Create a label by hashing a name.
    pub fn new(label: &str) -> (r: Label)
        requires
            label.spec_bytes().len() * 8 <= u64::MAX,
        ensures
            r@ == sha1_digest(sha1_iv(), label.spec_bytes()),
    {
        let mut hasher = Sha1::new();
        hasher.write(label.as_bytes());
        Label::from_raw(hasher.finish_and_fetch())
    }

    /// Create a label from a raw hash value, unaltered.
    pub fn from_raw(hash: [u32; 5]) -> (r: Label)
        ensures
            r@ == hash@,
    {
        Label { hash }
    }

    /// The invalid label.
    pub fn invalid() -> (r: Label)
        ensures
            r@ == seq![u32::MAX, u32::MAX, u32::MAX, u32::MAX, u32::MAX],
            !r.spec_is_valid(),
    {
        let r = Label { hash: [u32::MAX, u32::MAX, u32::MAX, u32::MAX, u32::MAX] };
        proof {
            assert(r.hash@ =~= seq![u32::MAX, u32::MAX, u32::MAX, u32::MAX, u32::MAX]);
        }
        r
    }

    /// Derive a label by folding a string into this one: the existing
    /// hash seeds a new SHA-1 computation over the string.
    pub fn append_str(self, label: &str) -> (r: Label)
        requires
            label.spec_bytes().len() * 8 <= u64::MAX,
        ensures
            r@ == sha1_digest(self@, label.spec_bytes()),
    {
        let mut hasher = Sha1::from_seed(self.hash);
        hasher.write(label.as_bytes());
        Label::from_raw(hasher.finish_and_fetch())
    }

    /// Check if the label is valid.
    pub fn is_valid(&self) -> (r: bool)
        ensures
            r == self.spec_is_valid(),
    {
        let h = &self.hash;
        let valid = !(h[0] == u32::MAX && h[1] == u32::MAX && h[2] == u32::MAX && h[3] == u32::MAX
            && h[4] == u32::MAX);
        proof {
            if !valid {
                assert(self.hash@ =~= seq![u32::MAX, u32::MAX, u32::MAX, u32::MAX, u32::MAX]);
            } else {
                assert(self.hash@ != seq![u32::MAX, u32::MAX, u32::MAX, u32::MAX, u32::MAX]);
            }
        }
        valid
    }

    /// Get the label value.
    pub fn value(&self) -> (r: [u32; 5])
        ensures
            r@ == self@,
    {
        self.hash
    }

    /// Overwrite the label with the invalid value.
    pub fn invalidate(&mut self)
        ensures
            final(self)@ == seq![u32::MAX, u32::MAX, u32::MAX, u32::MAX, u32::MAX],
    {
        self.hash = [u32::MAX, u32::MAX, u32::MAX, u32::MAX, u32::MAX];
        proof {
            assert(self.hash@ =~= seq![u32::MAX, u32::MAX, u32::MAX, u32::MAX, u32::MAX]);
        }
    }
}

} // verus!
