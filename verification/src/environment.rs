//! The identity of a per-project environment: a stable key derived from the
//! absolute project path by hashing.

use vstd::prelude::*;
use vstd::utf8::encode_utf8;

verus! {

/// What `sha2::Sha256` computes: the 32-byte SHA-256 digest of the input,
/// a function of the input bytes alone.
pub uninterp spec fn sha256_of(bytes: Seq<u8>) -> Seq<u8>;

/// The lowercase hexadecimal digit of a value below sixteen.
pub open spec fn hex_digit(n: u8) -> char {
    if n < 10 {
        (('0' as u8) + n) as char
    } else {
        (('a' as u8) + (n - 10)) as char
    }
}

/// The lowercase hexadecimal rendering of a byte string: two digits per
/// byte, high nibble first.
pub open spec fn hex_of(bytes: Seq<u8>) -> Seq<char>
    decreases bytes.len(),
{
    if bytes.len() == 0 {
        Seq::empty()
    } else {
        seq![hex_digit(bytes[0] / 16), hex_digit(bytes[0] % 16)] + hex_of(bytes.drop_first())
    }
}

/// The stable key of the project at `path`: the hex-rendered SHA-256 digest
/// of the path's bytes.
pub open spec fn project_hash(path: Seq<char>) -> Seq<char> {
    hex_of(sha256_of(encode_utf8(path)))
}

/// Relies on sha2::Sha256::digest: returns the SHA-256 digest of the input,
/// which is 32 bytes long and depends on the input bytes alone.
#[verifier::external_body]
fn sha256_digest(bytes: &Vec<u8>) -> (r: Vec<u8>)
    ensures
        r@ == sha256_of(bytes@),
        r@.len() == 32,
{
    <sha2::Sha256 as sha2::Digest>::digest(bytes.as_slice()).to_vec()
}

/// Relies on hex::encode: renders each byte as two lowercase hexadecimal
/// digits, high nibble first, exactly as `hex_of` states.
#[verifier::external_body]
fn hex_encode(bytes: &Vec<u8>) -> (r: String)
    ensures
        r@ == hex_of(bytes@),
{
    hex::encode(bytes.as_slice())
}

/// The rendering has two digits per byte.
pub proof fn lemma_hex_of_len(bytes: Seq<u8>)
    ensures
        hex_of(bytes).len() == 2 * bytes.len(),
    decreases bytes.len(),
{
    if bytes.len() > 0 {
        lemma_hex_of_len(bytes.drop_first());
    }
}

/// One project's environment, identified by the hash of the project path.
#[derive(Clone, Debug, PartialEq, Eq)]
pub struct Environment(pub String);

impl Environment {
    pub fn new(path: String) -> (r: Environment)
        ensures
            r.0@ == project_hash(path@),
            r.0@.len() == 64,
    {
        let bytes: Vec<u8> = vstd::slice::slice_to_vec(path.as_str().as_bytes());
        let digest = sha256_digest(&bytes);
        proof {
            lemma_hex_of_len(digest@);
        }
        Environment(hex_encode(&digest))
    }

    pub fn id(&self) -> (r: &str)
        ensures
            r@ == self.0@,
    {
        self.0.as_str()
    }
}

} // verus!
