//! SHA-256 over a stream of blocks, and lowercase hexadecimal.

use vstd::prelude::*;

verus! {

/// A SHA-256 computation fed block by block, so that a large file never has
/// to sit in memory at once.
#[verifier::external_body]
pub struct DigestStream {
    inner: sha2::Sha256,
}

/// The bytes a stream has absorbed so far, in order.
pub uninterp spec fn absorbed(d: DigestStream) -> Seq<u8>;

/// The SHA-256 digest of `data`.
pub uninterp spec fn sha256_of(data: Seq<u8>) -> Seq<u8>;

/// Relies on `sha2::Sha256::new`: a hasher that has absorbed nothing.
#[verifier::external_body]
fn sha256_new() -> (r: DigestStream)
    ensures
        absorbed(r) == Seq::<u8>::empty(),
{
    DigestStream { inner: <sha2::Sha256 as sha2::Digest>::new() }
}

/// Relies on `sha2::Digest::update`: the block is appended to the input.
#[verifier::external_body]
fn sha256_update(d: &mut DigestStream, block: &[u8])
    ensures
        absorbed(*final(d)) == absorbed(*old(d)) + block@,
{
    sha2::Digest::update(&mut d.inner, block);
}

/// Relies on `sha2::Digest::finalize`: the 32-byte digest of all the input.
#[verifier::external_body]
fn sha256_finalize(d: DigestStream) -> (r: Vec<u8>)
    ensures
        r@ == sha256_of(absorbed(d)),
        r@.len() == 32,
{
    sha2::Digest::finalize(d.inner).to_vec()
}

/// The lowercase hexadecimal digit of `n`.
pub open spec fn hex_digit(n: nat) -> char
    recommends
        n < 16,
{
    if n < 10 {
        ((n + 48) as u8) as char
    } else {
        ((n + 87) as u8) as char
    }
}

/// Two lowercase hexadecimal digits per byte, high nibble first.
pub open spec fn hex_seq(b: Seq<u8>) -> Seq<char>
    decreases b.len(),
{
    if b.len() == 0 {
        Seq::empty()
    } else {
        hex_seq(b.drop_last()) + seq![hex_digit(b.last() as nat / 16), hex_digit(b.last() as nat % 16)]
    }
}

/// Relies on `hex::encode`: two lowercase digits per byte, high nibble first.
#[verifier::external_body]
fn hex_encode(b: &[u8]) -> (r: String)
    ensures
        r@ == hex_seq(b@),
{
    hex::encode(b)
}

impl DigestStream {
    /// A stream that has absorbed nothing.
    pub fn new() -> (r: DigestStream)
        ensures
            absorbed(r) == Seq::<u8>::empty(),
    {
        sha256_new()
    }

    /// Appends `block` to the input.
    pub fn absorb(&mut self, block: &[u8])
        ensures
            absorbed(*final(self)) == absorbed(*old(self)) + block@,
    {
        sha256_update(self, block);
    }

    /// The digest of everything absorbed, in lowercase hexadecimal.
    pub fn finish_hex(self) -> (r: String)
        ensures
            r@ == hex_seq(sha256_of(absorbed(self))),
    {
        let bytes = sha256_finalize(self);
        hex_encode(bytes.as_slice())
    }
}

} // verus!
