//! The identifier that marks a site's local directory as a distinct project.

use vstd::prelude::*;
use sha2::Digest;
use vstd::string::StringSliceAdditionalSpecFns;
use vstd::utf8::encode_utf8;

verus! {

/// The number of digest bytes kept in a project identifier.
pub const PROJECT_ID_BYTES: usize = 20;

/// A lowercase hexadecimal digit for `n < 16`.
pub open spec fn hex_digit(n: u8) -> char {
    if n < 10 {
        (('0' as u8) + n) as char
    } else {
        (('a' as u8) + n - 10) as char
    }
}

/// Two lowercase hexadecimal digits per byte, high half first.
pub open spec fn hex_of(b: Seq<u8>) -> Seq<char>
    decreases b.len(),
{
    if b.len() == 0 {
        Seq::empty()
    } else {
        hex_of(b.drop_last()) + seq![hex_digit(b.last() / 16), hex_digit(b.last() % 16)]
    }
}

/// What `sha2::Sha256::digest` returns for a byte string.
pub uninterp spec fn sha256_of(data: Seq<u8>) -> Seq<u8>;

/// Relies on `sha2::Sha256::digest`: the SHA-256 digest of `data`, 32 bytes.
#[verifier::external_body]
fn sha256(data: &[u8]) -> (r: Vec<u8>)
    ensures
        r@ == sha256_of(data@),
        r@.len() == 32,
{
    sha2::Sha256::digest(data).to_vec()
}

/// Relies on `hex::encode`: two lowercase digits per byte, high half first.
#[verifier::external_body]
fn hex_encode(b: &[u8]) -> (r: String)
    ensures
        r@ == hex_of(b@),
{
    hex::encode(b)
}

/// The project identifier carried by a digest: its first 20 bytes in
/// lowercase hexadecimal.
pub fn project_id_from_digest(digest: &[u8]) -> (r: String)
    requires
        digest@.len() >= PROJECT_ID_BYTES,
    ensures
        r@ == hex_of(digest@.subrange(0, PROJECT_ID_BYTES as int)),
{
    let mut head: Vec<u8> = Vec::new();
    let mut i: usize = 0;
    while i < PROJECT_ID_BYTES
        invariant
            i <= PROJECT_ID_BYTES,
            digest@.len() >= PROJECT_ID_BYTES,
            head@ == digest@.subrange(0, i as int),
        decreases PROJECT_ID_BYTES - i,
    {
        head.push(digest[i]);
        i = i + 1;
        assert(head@ =~= digest@.subrange(0, i as int));
    }
    hex_encode(head.as_slice())
}

/// The identifier of the project at `path`: the first 20 bytes of the
/// SHA-256 digest of the path's UTF-8 bytes, in lowercase hexadecimal.
pub open spec fn project_id_of(path: Seq<char>) -> Seq<char> {
    hex_of(sha256_of(encode_utf8(path)).subrange(0, PROJECT_ID_BYTES as int))
}

/// The identifier of the project at `project_dir`: see `project_id_of`.
pub fn generate_opencode_project_id(project_dir: &str) -> (r: String)
    ensures
        r@ == project_id_of(project_dir@),
        r@ == hex_of(sha256_of(project_dir.spec_bytes()).subrange(0, PROJECT_ID_BYTES as int)),
        r@.len() == 2 * PROJECT_ID_BYTES,
{
    let digest = sha256(project_dir.as_bytes());
    let r = project_id_from_digest(digest.as_slice());
    proof {
        lemma_hex_len(digest@.subrange(0, PROJECT_ID_BYTES as int));
    }
    r
}

/// Hex text is twice as long as the bytes it encodes.
pub proof fn lemma_hex_len(b: Seq<u8>)
    ensures
        hex_of(b).len() == 2 * b.len(),
    decreases b.len(),
{
    if b.len() > 0 {
        lemma_hex_len(b.drop_last());
    }
}

} // verus!
