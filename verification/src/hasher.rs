//! SHA-1 content digests, computed piece by piece.

use vstd::prelude::*;
use rs_sha1::{HasherContext, Sha1Hasher};
use std::hash::Hasher;

verus! {

#[verifier::external_type_specification]
#[verifier::external_body]
pub struct ExSha1Hasher(rs_sha1::Sha1Hasher);

/// The bytes a SHA-1 hasher has been given so far, in order.
pub uninterp spec fn sha1_absorbed(hasher: Sha1Hasher) -> Seq<u8>;

/// The SHA-1 digest of a byte sequence, as forty lowercase hexadecimal digits.
pub uninterp spec fn sha1_hex_digest(bytes: Seq<u8>) -> Seq<char>;

/// The hasher counts its input in bits in a 64-bit word, so it takes fewer
/// than 2^61 bytes.
pub const HASHABLE_LIMIT: u64 = 0x2000_0000_0000_0000;

/// `Sha1Hasher::default()`: a hasher that has been given nothing yet.
#[verifier::external_body]
fn sha1_start() -> (hasher: Sha1Hasher)
    ensures
        sha1_absorbed(hasher) == Seq::<u8>::empty(),
{
    Sha1Hasher::default()
}

/// `Hasher::write` of `Sha1Hasher`: the bytes are appended to what the hasher
/// holds. The hasher buffers incomplete blocks, so only the concatenation of
/// all writes matters. It adds the length to a 64-bit counter, which must not
/// overflow.
#[verifier::external_body]
fn sha1_write(hasher: &mut Sha1Hasher, bytes: &[u8])
    requires
        sha1_absorbed(*old(hasher)).len() + bytes@.len() < HASHABLE_LIMIT,
    ensures
        sha1_absorbed(*final(hasher)) == sha1_absorbed(*old(hasher)) + bytes@,
{
    hasher.write(bytes)
}

/// `HasherContext::finish` of `Sha1Hasher`, formatted with `{:02x}`: the
/// digest of everything written, each of its twenty bytes as two lowercase
/// hexadecimal digits. Finishing multiplies the byte count by eight.
#[verifier::external_body]
fn sha1_finish_hex(hasher: Sha1Hasher) -> (digest: String)
    requires
        sha1_absorbed(hasher).len() < HASHABLE_LIMIT,
    ensures
        digest@ == sha1_hex_digest(sha1_absorbed(hasher)),
{
    let mut hasher = hasher;
    format!("{:02x}", HasherContext::finish(&mut hasher))
}

/// A streaming content hasher: bytes go in piece by piece, and the digest of
/// their concatenation comes out.
pub struct ContentHasher {
    inner: Sha1Hasher,
    count: u64,
}

impl ContentHasher {
    /// Everything the hasher has been given, in order.
    pub closed spec fn absorbed(&self) -> Seq<u8> {
        sha1_absorbed(self.inner)
    }

    /// The byte count is that of the absorbed bytes and within the limit.
    pub closed spec fn wf(&self) -> bool {
        &&& self.count == sha1_absorbed(self.inner).len()
        &&& self.count < HASHABLE_LIMIT
    }

    /// How many bytes the hasher says it has taken.
    pub closed spec fn count(&self) -> nat {
        self.count as nat
    }

    /// The digest the hasher would give now.
    pub open spec fn digest(&self) -> Seq<char> {
        sha1_hex_digest(self.absorbed())
    }

    pub fn new() -> (hasher: ContentHasher)
        ensures
            hasher.wf(),
            hasher.absorbed() == Seq::<u8>::empty(),
    {
        ContentHasher { inner: sha1_start(), count: 0 }
    }

    /// How many bytes have gone in.
    pub fn byte_count(&self) -> (count: u64)
        requires
            self.wf(),
        ensures
            count == self.count(),
            count == self.absorbed().len(),
            count < HASHABLE_LIMIT,
    {
        self.count
    }

    /// Whether `len` more bytes fit under the hasher's limit.
    pub fn accepts(&self, len: usize) -> (fits: bool)
        requires
            self.wf(),
        ensures
            fits == (self.absorbed().len() + len < HASHABLE_LIMIT),
    {
        (len as u64) < HASHABLE_LIMIT - self.count
    }

    /// Appends `bytes` to the hashed content and says how many bytes were
    /// taken: all of them.
    pub fn update(&mut self, bytes: &[u8]) -> (written: usize)
        requires
            old(self).wf(),
            old(self).absorbed().len() + bytes@.len() < HASHABLE_LIMIT,
        ensures
            final(self).wf(),
            final(self).absorbed() == old(self).absorbed() + bytes@,
            written == bytes@.len(),
    {
        sha1_write(&mut self.inner, bytes);
        self.count = self.count + bytes.len() as u64;
        bytes.len()
    }

    /// The digest of everything that went in, in lowercase hexadecimal.
    pub fn finish(self) -> (digest: String)
        requires
            self.wf(),
        ensures
            digest@ == self.digest(),
    {
        sha1_finish_hex(self.inner)
    }
}

/// The digest of one byte range, in lowercase hexadecimal.
pub fn sha1_hex(bytes: &[u8]) -> (digest: String)
    requires
        bytes@.len() < HASHABLE_LIMIT,
    ensures
        digest@ == sha1_hex_digest(bytes@),
{
    let mut hasher = ContentHasher::new();
    let _ = hasher.update(bytes);
    assert(Seq::<u8>::empty() + bytes@ =~= bytes@);
    hasher.finish()
}

/// Hashing the same bytes twice gives the same digest: two hashers that were
/// given the same bytes, in whatever pieces, give equal digests and count
/// equally many bytes.
pub proof fn lemma_same_bytes_same_digest(first: ContentHasher, second: ContentHasher)
    requires
        first.wf(),
        second.wf(),
        first.absorbed() == second.absorbed(),
    ensures
        first.digest() == second.digest(),
        first.digest() == sha1_hex_digest(first.absorbed()),
        first.count() == second.count(),
        first.count() == first.absorbed().len(),
{
}

/// A range hashed in two pieces has the digest of the whole range.
pub proof fn lemma_pieces_hash_as_whole(
    start: ContentHasher,
    middle: ContentHasher,
    end: ContentHasher,
    first: Seq<u8>,
    second: Seq<u8>,
)
    requires
        start.absorbed() == Seq::<u8>::empty(),
        middle.absorbed() == start.absorbed() + first,
        end.absorbed() == middle.absorbed() + second,
    ensures
        end.digest() == sha1_hex_digest(first + second),
{
    assert(end.absorbed() =~= first + second);
}

} // verus!
