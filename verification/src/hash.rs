//! Hashes and their hexadecimal form.

use sha2::Digest;
use vstd::prelude::*;

verus! {

/// The SHA-256 digest of `data`.
pub uninterp spec fn sha256_of(data: Seq<u8>) -> Seq<u8>;

/// The SHA-256 digest of `data`.
///
/// Calls `Sha256::digest` of the crate `sha2`. The contract gives the digest
/// its name and says that it has 32 bytes, the output size of SHA-256; it
/// claims nothing else of it.
#[verifier::external_body]
pub(crate) fn sha256(data: &[u8]) -> (digest: Vec<u8>)
    ensures
        digest@ == sha256_of(data@),
        digest@.len() == 32,
{
    sha2::Sha256::digest(data).to_vec()
}

/// The character that writes the hexadecimal digit `n`, in lowercase.
pub open spec fn hex_digit(n: int) -> char {
    "0123456789abcdef"@[n]
}

/// The hexadecimal form of `data`: two lowercase digits for each byte, the
/// digit of the higher four bits first.
pub open spec fn hex_of(data: Seq<u8>) -> Seq<char> {
    Seq::new(
        2 * data.len(),
        |i: int|
            if i % 2 == 0 {
                hex_digit(data[i / 2] as int / 16)
            } else {
                hex_digit(data[i / 2] as int % 16)
            },
    )
}

/// The hexadecimal form of `data`.
///
/// Calls `hex::encode` of the crate `hex`, which writes each byte as two
/// digits out of `0123456789abcdef`, the higher four bits first. The
/// contract says exactly that.
#[verifier::external_body]
pub(crate) fn hex_encode(data: &[u8]) -> (text: String)
    ensures
        text@ == hex_of(data@),
{
    hex::encode(data)
}

/// The hexadecimal form of the SHA-256 digest of `data`.
pub open spec fn hex_digest_of(data: Seq<u8>) -> Seq<char> {
    hex_of(sha256_of(data))
}

/// The hexadecimal form of the first `count` bytes of `digest`, or of all of
/// it where it has fewer.
pub open spec fn hex_prefix_of(digest: Seq<u8>, count: int) -> Seq<char> {
    if 0 <= count <= digest.len() {
        hex_of(digest.take(count))
    } else {
        hex_of(digest)
    }
}

/// The hexadecimal form of the first `count` bytes of `digest`, or of all of
/// it where it has fewer.
pub fn hex_prefix(digest: &Vec<u8>, count: usize) -> (text: String)
    ensures
        text@ == hex_prefix_of(digest@, count as int),
{
    if count <= digest.len() {
        let head = vstd::slice::slice_subrange(digest.as_slice(), 0, count);
        assert(head@ =~= digest@.take(count as int));
        hex_encode(head)
    } else {
        hex_encode(digest.as_slice())
    }
}

/// The hexadecimal form of the SHA-256 digest of `data`: 64 characters.
pub fn hex_digest(data: &[u8]) -> (text: String)
    ensures
        text@ == hex_digest_of(data@),
        text@.len() == 64,
{
    let digest = sha256(data);
    hex_encode(digest.as_slice())
}

} // verus!
