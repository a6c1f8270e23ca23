//! Digests and HMACs selected by algorithm name, written in lower-case
//! hexadecimal.

use vstd::prelude::*;
use vstd::string::StringSliceAdditionalSpecFns;

use digest::{Digest, Mac};

verus! {

/// A hash algorithm that `hashing_varchar` and `hmac_varchar` can use.
#[derive(Clone, Copy, Debug, PartialEq, Eq, Structural)]
pub enum HashAlgorithm {
    Blake2b512,
    Keccak224,
    Keccak256,
    Keccak384,
    Keccak512,
    Md4,
    Md5,
    Sha1,
    Sha2_224,
    Sha2_256,
    Sha2_384,
    Sha2_512,
    Sha3_224,
    Sha3_256,
    Sha3_384,
    Sha3_512,
}

/// Why a hash could not be computed.
#[derive(Clone, Copy, Debug, PartialEq, Eq, Structural)]
pub enum HashError {
    /// No algorithm has the name given.
    UnknownAlgorithm,
}

/// Every algorithm, in the order in which their names are listed.
pub open spec fn all_algorithms() -> Seq<HashAlgorithm> {
    seq![
        HashAlgorithm::Blake2b512,
        HashAlgorithm::Keccak224,
        HashAlgorithm::Keccak256,
        HashAlgorithm::Keccak384,
        HashAlgorithm::Keccak512,
        HashAlgorithm::Md4,
        HashAlgorithm::Md5,
        HashAlgorithm::Sha1,
        HashAlgorithm::Sha2_224,
        HashAlgorithm::Sha2_256,
        HashAlgorithm::Sha2_384,
        HashAlgorithm::Sha2_512,
        HashAlgorithm::Sha3_224,
        HashAlgorithm::Sha3_256,
        HashAlgorithm::Sha3_384,
        HashAlgorithm::Sha3_512,
    ]
}

impl HashAlgorithm {
    /// The name by which callers select the algorithm.
    pub open spec fn spec_name(self) -> &'static str {
        match self {
            HashAlgorithm::Blake2b512 => "blake2b-512",
            HashAlgorithm::Keccak224 => "keccak224",
            HashAlgorithm::Keccak256 => "keccak256",
            HashAlgorithm::Keccak384 => "keccak384",
            HashAlgorithm::Keccak512 => "keccak512",
            HashAlgorithm::Md4 => "md4",
            HashAlgorithm::Md5 => "md5",
            HashAlgorithm::Sha1 => "sha1",
            HashAlgorithm::Sha2_224 => "sha2-224",
            HashAlgorithm::Sha2_256 => "sha2-256",
            HashAlgorithm::Sha2_384 => "sha2-384",
            HashAlgorithm::Sha2_512 => "sha2-512",
            HashAlgorithm::Sha3_224 => "sha3-224",
            HashAlgorithm::Sha3_256 => "sha3-256",
            HashAlgorithm::Sha3_384 => "sha3-384",
            HashAlgorithm::Sha3_512 => "sha3-512",
        }
    }

    /// The length in bytes of the algorithm's digest.
    pub open spec fn digest_len(self) -> nat {
        match self {
            HashAlgorithm::Blake2b512 => 64,
            HashAlgorithm::Keccak224 => 28,
            HashAlgorithm::Keccak256 => 32,
            HashAlgorithm::Keccak384 => 48,
            HashAlgorithm::Keccak512 => 64,
            HashAlgorithm::Md4 => 16,
            HashAlgorithm::Md5 => 16,
            HashAlgorithm::Sha1 => 20,
            HashAlgorithm::Sha2_224 => 28,
            HashAlgorithm::Sha2_256 => 32,
            HashAlgorithm::Sha2_384 => 48,
            HashAlgorithm::Sha2_512 => 64,
            HashAlgorithm::Sha3_224 => 28,
            HashAlgorithm::Sha3_256 => 32,
            HashAlgorithm::Sha3_384 => 48,
            HashAlgorithm::Sha3_512 => 64,
        }
    }

    /// The name by which callers select the algorithm.
    pub fn name(&self) -> (r: &'static str)
        ensures
            r == self.spec_name(),
    {
        match self {
            HashAlgorithm::Blake2b512 => "blake2b-512",
            HashAlgorithm::Keccak224 => "keccak224",
            HashAlgorithm::Keccak256 => "keccak256",
            HashAlgorithm::Keccak384 => "keccak384",
            HashAlgorithm::Keccak512 => "keccak512",
            HashAlgorithm::Md4 => "md4",
            HashAlgorithm::Md5 => "md5",
            HashAlgorithm::Sha1 => "sha1",
            HashAlgorithm::Sha2_224 => "sha2-224",
            HashAlgorithm::Sha2_256 => "sha2-256",
            HashAlgorithm::Sha2_384 => "sha2-384",
            HashAlgorithm::Sha2_512 => "sha2-512",
            HashAlgorithm::Sha3_224 => "sha3-224",
            HashAlgorithm::Sha3_256 => "sha3-256",
            HashAlgorithm::Sha3_384 => "sha3-384",
            HashAlgorithm::Sha3_512 => "sha3-512",
        }
    }
}

/// The digest that an algorithm gives for `data`.
pub uninterp spec fn hash_digest(algorithm: HashAlgorithm, data: Seq<u8>) -> Seq<u8>;

/// The keyed digest (HMAC) that an algorithm gives for `key` and `data`.
pub uninterp spec fn hmac_digest(algorithm: HashAlgorithm, key: Seq<u8>, data: Seq<u8>) -> Seq<u8>;

/// The lower-case hexadecimal digit for `n < 16`.
pub open spec fn hex_char(n: int) -> char {
    if n == 0 {
        '0'
    } else if n == 1 {
        '1'
    } else if n == 2 {
        '2'
    } else if n == 3 {
        '3'
    } else if n == 4 {
        '4'
    } else if n == 5 {
        '5'
    } else if n == 6 {
        '6'
    } else if n == 7 {
        '7'
    } else if n == 8 {
        '8'
    } else if n == 9 {
        '9'
    } else if n == 10 {
        'a'
    } else if n == 11 {
        'b'
    } else if n == 12 {
        'c'
    } else if n == 13 {
        'd'
    } else if n == 14 {
        'e'
    } else {
        'f'
    }
}

/// `s` is `b` written in lower-case hexadecimal, two digits per byte, high digit first.
pub open spec fn is_lower_hex_of(s: Seq<char>, b: Seq<u8>) -> bool {
    &&& s.len() == 2 * b.len()
    &&& forall|i: int|
        0 <= i < b.len() ==> s[2 * i] == hex_char(#[trigger] b[i] as int / 16) && s[2 * i + 1]
            == hex_char(b[i] as int % 16)
}

/// Relies on base16ct::lower::encode_string: two lower-case hex digits per byte.
#[verifier::external_body]
fn lower_hex(b: &[u8]) -> (r: String)
    ensures
        is_lower_hex_of(r@, b@),
{
    base16ct::lower::encode_string(b)
}

/// Relies on blake2::Blake2b512: its digest of the data, of the
/// algorithm's output size.
#[verifier::external_body]
fn digest_blake2b512(data: &[u8]) -> (r: Vec<u8>)
    ensures
        r@ == hash_digest(HashAlgorithm::Blake2b512, data@),
        r@.len() == HashAlgorithm::Blake2b512.digest_len(),
{
    blake2::Blake2b512::digest(data).to_vec()
}

/// Relies on hmac::SimpleHmac over blake2::Blake2b512: the HMAC of the data under the key
/// (`new_from_slice` accepts a key of any length), as long as the hash's digest.
#[verifier::external_body]
fn hmac_blake2b512(key: &[u8], data: &[u8]) -> (r: Vec<u8>)
    ensures
        r@ == hmac_digest(HashAlgorithm::Blake2b512, key@, data@),
        r@.len() == HashAlgorithm::Blake2b512.digest_len(),
{
    let mut mac = <hmac::SimpleHmac<blake2::Blake2b512> as Mac>::new_from_slice(key)
        .expect("keys of any length are accepted");
    mac.update(data);
    mac.finalize().into_bytes().to_vec()
}

/// Relies on sha3::Keccak224: its digest of the data, of the
/// algorithm's output size.
#[verifier::external_body]
fn digest_keccak224(data: &[u8]) -> (r: Vec<u8>)
    ensures
        r@ == hash_digest(HashAlgorithm::Keccak224, data@),
        r@.len() == HashAlgorithm::Keccak224.digest_len(),
{
    sha3::Keccak224::digest(data).to_vec()
}

/// Relies on hmac::SimpleHmac over sha3::Keccak224: the HMAC of the data under the key
/// (`new_from_slice` accepts a key of any length), as long as the hash's digest.
#[verifier::external_body]
fn hmac_keccak224(key: &[u8], data: &[u8]) -> (r: Vec<u8>)
    ensures
        r@ == hmac_digest(HashAlgorithm::Keccak224, key@, data@),
        r@.len() == HashAlgorithm::Keccak224.digest_len(),
{
    let mut mac = <hmac::SimpleHmac<sha3::Keccak224> as Mac>::new_from_slice(key)
        .expect("keys of any length are accepted");
    mac.update(data);
    mac.finalize().into_bytes().to_vec()
}

/// Relies on sha3::Keccak256: its digest of the data, of the
/// algorithm's output size.
#[verifier::external_body]
fn digest_keccak256(data: &[u8]) -> (r: Vec<u8>)
    ensures
        r@ == hash_digest(HashAlgorithm::Keccak256, data@),
        r@.len() == HashAlgorithm::Keccak256.digest_len(),
{
    sha3::Keccak256::digest(data).to_vec()
}

/// Relies on hmac::SimpleHmac over sha3::Keccak256: the HMAC of the data under the key
/// (`new_from_slice` accepts a key of any length), as long as the hash's digest.
#[verifier::external_body]
fn hmac_keccak256(key: &[u8], data: &[u8]) -> (r: Vec<u8>)
    ensures
        r@ == hmac_digest(HashAlgorithm::Keccak256, key@, data@),
        r@.len() == HashAlgorithm::Keccak256.digest_len(),
{
    let mut mac = <hmac::SimpleHmac<sha3::Keccak256> as Mac>::new_from_slice(key)
        .expect("keys of any length are accepted");
    mac.update(data);
    mac.finalize().into_bytes().to_vec()
}

/// Relies on sha3::Keccak384: its digest of the data, of the
/// algorithm's output size.
#[verifier::external_body]
fn digest_keccak384(data: &[u8]) -> (r: Vec<u8>)
    ensures
        r@ == hash_digest(HashAlgorithm::Keccak384, data@),
        r@.len() == HashAlgorithm::Keccak384.digest_len(),
{
    sha3::Keccak384::digest(data).to_vec()
}

/// Relies on hmac::SimpleHmac over sha3::Keccak384: the HMAC of the data under the key
/// (`new_from_slice` accepts a key of any length), as long as the hash's digest.
#[verifier::external_body]
fn hmac_keccak384(key: &[u8], data: &[u8]) -> (r: Vec<u8>)
    ensures
        r@ == hmac_digest(HashAlgorithm::Keccak384, key@, data@),
        r@.len() == HashAlgorithm::Keccak384.digest_len(),
{
    let mut mac = <hmac::SimpleHmac<sha3::Keccak384> as Mac>::new_from_slice(key)
        .expect("keys of any length are accepted");
    mac.update(data);
    mac.finalize().into_bytes().to_vec()
}

/// Relies on sha3::Keccak512: its digest of the data, of the
/// algorithm's output size.
#[verifier::external_body]
fn digest_keccak512(data: &[u8]) -> (r: Vec<u8>)
    ensures
        r@ == hash_digest(HashAlgorithm::Keccak512, data@),
        r@.len() == HashAlgorithm::Keccak512.digest_len(),
{
    sha3::Keccak512::digest(data).to_vec()
}

/// Relies on hmac::SimpleHmac over sha3::Keccak512: the HMAC of the data under the key
/// (`new_from_slice` accepts a key of any length), as long as the hash's digest.
#[verifier::external_body]
fn hmac_keccak512(key: &[u8], data: &[u8]) -> (r: Vec<u8>)
    ensures
        r@ == hmac_digest(HashAlgorithm::Keccak512, key@, data@),
        r@.len() == HashAlgorithm::Keccak512.digest_len(),
{
    let mut mac = <hmac::SimpleHmac<sha3::Keccak512> as Mac>::new_from_slice(key)
        .expect("keys of any length are accepted");
    mac.update(data);
    mac.finalize().into_bytes().to_vec()
}

/// Relies on md4::Md4: its digest of the data, of the
/// algorithm's output size.
#[verifier::external_body]
fn digest_md4(data: &[u8]) -> (r: Vec<u8>)
    ensures
        r@ == hash_digest(HashAlgorithm::Md4, data@),
        r@.len() == HashAlgorithm::Md4.digest_len(),
{
    md4::Md4::digest(data).to_vec()
}

/// Relies on hmac::SimpleHmac over md4::Md4: the HMAC of the data under the key
/// (`new_from_slice` accepts a key of any length), as long as the hash's digest.
#[verifier::external_body]
fn hmac_md4(key: &[u8], data: &[u8]) -> (r: Vec<u8>)
    ensures
        r@ == hmac_digest(HashAlgorithm::Md4, key@, data@),
        r@.len() == HashAlgorithm::Md4.digest_len(),
{
    let mut mac = <hmac::SimpleHmac<md4::Md4> as Mac>::new_from_slice(key)
        .expect("keys of any length are accepted");
    mac.update(data);
    mac.finalize().into_bytes().to_vec()
}

/// Relies on md5::Md5: its digest of the data, of the
/// algorithm's output size.
#[verifier::external_body]
fn digest_md5(data: &[u8]) -> (r: Vec<u8>)
    ensures
        r@ == hash_digest(HashAlgorithm::Md5, data@),
        r@.len() == HashAlgorithm::Md5.digest_len(),
{
    md5::Md5::digest(data).to_vec()
}

/// Relies on hmac::SimpleHmac over md5::Md5: the HMAC of the data under the key
/// (`new_from_slice` accepts a key of any length), as long as the hash's digest.
#[verifier::external_body]
fn hmac_md5(key: &[u8], data: &[u8]) -> (r: Vec<u8>)
    ensures
        r@ == hmac_digest(HashAlgorithm::Md5, key@, data@),
        r@.len() == HashAlgorithm::Md5.digest_len(),
{
    let mut mac = <hmac::SimpleHmac<md5::Md5> as Mac>::new_from_slice(key)
        .expect("keys of any length are accepted");
    mac.update(data);
    mac.finalize().into_bytes().to_vec()
}

/// Relies on sha1::Sha1: its digest of the data, of the
/// algorithm's output size.
#[verifier::external_body]
fn digest_sha1(data: &[u8]) -> (r: Vec<u8>)
    ensures
        r@ == hash_digest(HashAlgorithm::Sha1, data@),
        r@.len() == HashAlgorithm::Sha1.digest_len(),
{
    sha1::Sha1::digest(data).to_vec()
}

/// Relies on hmac::SimpleHmac over sha1::Sha1: the HMAC of the data under the key
/// (`new_from_slice` accepts a key of any length), as long as the hash's digest.
#[verifier::external_body]
fn hmac_sha1(key: &[u8], data: &[u8]) -> (r: Vec<u8>)
    ensures
        r@ == hmac_digest(HashAlgorithm::Sha1, key@, data@),
        r@.len() == HashAlgorithm::Sha1.digest_len(),
{
    let mut mac = <hmac::SimpleHmac<sha1::Sha1> as Mac>::new_from_slice(key)
        .expect("keys of any length are accepted");
    mac.update(data);
    mac.finalize().into_bytes().to_vec()
}

/// Relies on sha2::Sha224: its digest of the data, of the
/// algorithm's output size.
#[verifier::external_body]
fn digest_sha2_224(data: &[u8]) -> (r: Vec<u8>)
    ensures
        r@ == hash_digest(HashAlgorithm::Sha2_224, data@),
        r@.len() == HashAlgorithm::Sha2_224.digest_len(),
{
    sha2::Sha224::digest(data).to_vec()
}

/// Relies on hmac::SimpleHmac over sha2::Sha224: the HMAC of the data under the key
/// (`new_from_slice` accepts a key of any length), as long as the hash's digest.
#[verifier::external_body]
fn hmac_sha2_224(key: &[u8], data: &[u8]) -> (r: Vec<u8>)
    ensures
        r@ == hmac_digest(HashAlgorithm::Sha2_224, key@, data@),
        r@.len() == HashAlgorithm::Sha2_224.digest_len(),
{
    let mut mac = <hmac::SimpleHmac<sha2::Sha224> as Mac>::new_from_slice(key)
        .expect("keys of any length are accepted");
    mac.update(data);
    mac.finalize().into_bytes().to_vec()
}

/// Relies on sha2::Sha256: its digest of the data, of the
/// algorithm's output size.
#[verifier::external_body]
fn digest_sha2_256(data: &[u8]) -> (r: Vec<u8>)
    ensures
        r@ == hash_digest(HashAlgorithm::Sha2_256, data@),
        r@.len() == HashAlgorithm::Sha2_256.digest_len(),
{
    sha2::Sha256::digest(data).to_vec()
}

/// Relies on hmac::SimpleHmac over sha2::Sha256: the HMAC of the data under the key
/// (`new_from_slice` accepts a key of any length), as long as the hash's digest.
#[verifier::external_body]
fn hmac_sha2_256(key: &[u8], data: &[u8]) -> (r: Vec<u8>)
    ensures
        r@ == hmac_digest(HashAlgorithm::Sha2_256, key@, data@),
        r@.len() == HashAlgorithm::Sha2_256.digest_len(),
{
    let mut mac = <hmac::SimpleHmac<sha2::Sha256> as Mac>::new_from_slice(key)
        .expect("keys of any length are accepted");
    mac.update(data);
    mac.finalize().into_bytes().to_vec()
}

/// Relies on sha2::Sha384: its digest of the data, of the
/// algorithm's output size.
#[verifier::external_body]
fn digest_sha2_384(data: &[u8]) -> (r: Vec<u8>)
    ensures
        r@ == hash_digest(HashAlgorithm::Sha2_384, data@),
        r@.len() == HashAlgorithm::Sha2_384.digest_len(),
{
    sha2::Sha384::digest(data).to_vec()
}

/// Relies on hmac::SimpleHmac over sha2::Sha384: the HMAC of the data under the key
/// (`new_from_slice` accepts a key of any length), as long as the hash's digest.
#[verifier::external_body]
fn hmac_sha2_384(key: &[u8], data: &[u8]) -> (r: Vec<u8>)
    ensures
        r@ == hmac_digest(HashAlgorithm::Sha2_384, key@, data@),
        r@.len() == HashAlgorithm::Sha2_384.digest_len(),
{
    let mut mac = <hmac::SimpleHmac<sha2::Sha384> as Mac>::new_from_slice(key)
        .expect("keys of any length are accepted");
    mac.update(data);
    mac.finalize().into_bytes().to_vec()
}

/// Relies on sha2::Sha512: its digest of the data, of the
/// algorithm's output size.
#[verifier::external_body]
fn digest_sha2_512(data: &[u8]) -> (r: Vec<u8>)
    ensures
        r@ == hash_digest(HashAlgorithm::Sha2_512, data@),
        r@.len() == HashAlgorithm::Sha2_512.digest_len(),
{
    sha2::Sha512::digest(data).to_vec()
}

/// Relies on hmac::SimpleHmac over sha2::Sha512: the HMAC of the data under the key
/// (`new_from_slice` accepts a key of any length), as long as the hash's digest.
#[verifier::external_body]
fn hmac_sha2_512(key: &[u8], data: &[u8]) -> (r: Vec<u8>)
    ensures
        r@ == hmac_digest(HashAlgorithm::Sha2_512, key@, data@),
        r@.len() == HashAlgorithm::Sha2_512.digest_len(),
{
    let mut mac = <hmac::SimpleHmac<sha2::Sha512> as Mac>::new_from_slice(key)
        .expect("keys of any length are accepted");
    mac.update(data);
    mac.finalize().into_bytes().to_vec()
}

/// Relies on sha3::Sha3_224: its digest of the data, of the
/// algorithm's output size.
#[verifier::external_body]
fn digest_sha3_224(data: &[u8]) -> (r: Vec<u8>)
    ensures
        r@ == hash_digest(HashAlgorithm::Sha3_224, data@),
        r@.len() == HashAlgorithm::Sha3_224.digest_len(),
{
    sha3::Sha3_224::digest(data).to_vec()
}

/// Relies on hmac::SimpleHmac over sha3::Sha3_224: the HMAC of the data under the key
/// (`new_from_slice` accepts a key of any length), as long as the hash's digest.
#[verifier::external_body]
fn hmac_sha3_224(key: &[u8], data: &[u8]) -> (r: Vec<u8>)
    ensures
        r@ == hmac_digest(HashAlgorithm::Sha3_224, key@, data@),
        r@.len() == HashAlgorithm::Sha3_224.digest_len(),
{
    let mut mac = <hmac::SimpleHmac<sha3::Sha3_224> as Mac>::new_from_slice(key)
        .expect("keys of any length are accepted");
    mac.update(data);
    mac.finalize().into_bytes().to_vec()
}

/// Relies on sha3::Sha3_256: its digest of the data, of the
/// algorithm's output size.
#[verifier::external_body]
fn digest_sha3_256(data: &[u8]) -> (r: Vec<u8>)
    ensures
        r@ == hash_digest(HashAlgorithm::Sha3_256, data@),
        r@.len() == HashAlgorithm::Sha3_256.digest_len(),
{
    sha3::Sha3_256::digest(data).to_vec()
}

/// Relies on hmac::SimpleHmac over sha3::Sha3_256: the HMAC of the data under the key
/// (`new_from_slice` accepts a key of any length), as long as the hash's digest.
#[verifier::external_body]
fn hmac_sha3_256(key: &[u8], data: &[u8]) -> (r: Vec<u8>)
    ensures
        r@ == hmac_digest(HashAlgorithm::Sha3_256, key@, data@),
        r@.len() == HashAlgorithm::Sha3_256.digest_len(),
{
    let mut mac = <hmac::SimpleHmac<sha3::Sha3_256> as Mac>::new_from_slice(key)
        .expect("keys of any length are accepted");
    mac.update(data);
    mac.finalize().into_bytes().to_vec()
}

/// Relies on sha3::Sha3_384: its digest of the data, of the
/// algorithm's output size.
#[verifier::external_body]
fn digest_sha3_384(data: &[u8]) -> (r: Vec<u8>)
    ensures
        r@ == hash_digest(HashAlgorithm::Sha3_384, data@),
        r@.len() == HashAlgorithm::Sha3_384.digest_len(),
{
    sha3::Sha3_384::digest(data).to_vec()
}

/// Relies on hmac::SimpleHmac over sha3::Sha3_384: the HMAC of the data under the key
/// (`new_from_slice` accepts a key of any length), as long as the hash's digest.
#[verifier::external_body]
fn hmac_sha3_384(key: &[u8], data: &[u8]) -> (r: Vec<u8>)
    ensures
        r@ == hmac_digest(HashAlgorithm::Sha3_384, key@, data@),
        r@.len() == HashAlgorithm::Sha3_384.digest_len(),
{
    let mut mac = <hmac::SimpleHmac<sha3::Sha3_384> as Mac>::new_from_slice(key)
        .expect("keys of any length are accepted");
    mac.update(data);
    mac.finalize().into_bytes().to_vec()
}

/// Relies on sha3::Sha3_512: its digest of the data, of the
/// algorithm's output size.
#[verifier::external_body]
fn digest_sha3_512(data: &[u8]) -> (r: Vec<u8>)
    ensures
        r@ == hash_digest(HashAlgorithm::Sha3_512, data@),
        r@.len() == HashAlgorithm::Sha3_512.digest_len(),
{
    sha3::Sha3_512::digest(data).to_vec()
}

/// Relies on hmac::SimpleHmac over sha3::Sha3_512: the HMAC of the data under the key
/// (`new_from_slice` accepts a key of any length), as long as the hash's digest.
#[verifier::external_body]
fn hmac_sha3_512(key: &[u8], data: &[u8]) -> (r: Vec<u8>)
    ensures
        r@ == hmac_digest(HashAlgorithm::Sha3_512, key@, data@),
        r@.len() == HashAlgorithm::Sha3_512.digest_len(),
{
    let mut mac = <hmac::SimpleHmac<sha3::Sha3_512> as Mac>::new_from_slice(key)
        .expect("keys of any length are accepted");
    mac.update(data);
    mac.finalize().into_bytes().to_vec()
}

/// The digest of `data` under an algorithm.
pub fn digest_with(algorithm: HashAlgorithm, data: &[u8]) -> (r: Vec<u8>)
    ensures
        r@ == hash_digest(algorithm, data@),
        r@.len() == algorithm.digest_len(),
{
    match algorithm {
        HashAlgorithm::Blake2b512 => digest_blake2b512(data),
        HashAlgorithm::Keccak224 => digest_keccak224(data),
        HashAlgorithm::Keccak256 => digest_keccak256(data),
        HashAlgorithm::Keccak384 => digest_keccak384(data),
        HashAlgorithm::Keccak512 => digest_keccak512(data),
        HashAlgorithm::Md4 => digest_md4(data),
        HashAlgorithm::Md5 => digest_md5(data),
        HashAlgorithm::Sha1 => digest_sha1(data),
        HashAlgorithm::Sha2_224 => digest_sha2_224(data),
        HashAlgorithm::Sha2_256 => digest_sha2_256(data),
        HashAlgorithm::Sha2_384 => digest_sha2_384(data),
        HashAlgorithm::Sha2_512 => digest_sha2_512(data),
        HashAlgorithm::Sha3_224 => digest_sha3_224(data),
        HashAlgorithm::Sha3_256 => digest_sha3_256(data),
        HashAlgorithm::Sha3_384 => digest_sha3_384(data),
        HashAlgorithm::Sha3_512 => digest_sha3_512(data),
    }
}

/// The HMAC of `data` under `key` with an algorithm.
pub fn hmac_with(algorithm: HashAlgorithm, key: &[u8], data: &[u8]) -> (r: Vec<u8>)
    ensures
        r@ == hmac_digest(algorithm, key@, data@),
        r@.len() == algorithm.digest_len(),
{
    match algorithm {
        HashAlgorithm::Blake2b512 => hmac_blake2b512(key, data),
        HashAlgorithm::Keccak224 => hmac_keccak224(key, data),
        HashAlgorithm::Keccak256 => hmac_keccak256(key, data),
        HashAlgorithm::Keccak384 => hmac_keccak384(key, data),
        HashAlgorithm::Keccak512 => hmac_keccak512(key, data),
        HashAlgorithm::Md4 => hmac_md4(key, data),
        HashAlgorithm::Md5 => hmac_md5(key, data),
        HashAlgorithm::Sha1 => hmac_sha1(key, data),
        HashAlgorithm::Sha2_224 => hmac_sha2_224(key, data),
        HashAlgorithm::Sha2_256 => hmac_sha2_256(key, data),
        HashAlgorithm::Sha2_384 => hmac_sha2_384(key, data),
        HashAlgorithm::Sha2_512 => hmac_sha2_512(key, data),
        HashAlgorithm::Sha3_224 => hmac_sha3_224(key, data),
        HashAlgorithm::Sha3_256 => hmac_sha3_256(key, data),
        HashAlgorithm::Sha3_384 => hmac_sha3_384(key, data),
        HashAlgorithm::Sha3_512 => hmac_sha3_512(key, data),
    }
}

/// Whether two strings hold the same bytes.
fn same_text(a: &str, b: &str) -> (r: bool)
    ensures
        r == (a.spec_bytes() == b.spec_bytes()),
{
    let x = a.as_bytes();
    let y = b.as_bytes();
    if x.len() != y.len() {
        return false;
    }
    let mut i: usize = 0;
    while i < x.len()
        invariant
            x@ == a.spec_bytes(),
            y@ == b.spec_bytes(),
            x.len() == y.len(),
            0 <= i <= x.len(),
            forall|j: int| 0 <= j < i ==> x@[j] == y@[j],
        decreases x.len() - i,
    {
        if x[i] != y[i] {
            return false;
        }
        i = i + 1;
    }
    assert(x@ =~= y@);
    true
}

/// Some algorithm is called `name`.
pub open spec fn is_known_name(name: &str) -> bool {
    exists|a: HashAlgorithm| #[trigger] a.spec_name().spec_bytes() == name.spec_bytes()
}

/// The algorithm called `name`, if any.
pub fn select_hasher(name: &str) -> (r: Option<HashAlgorithm>)
    ensures
        r is Some <==> is_known_name(name),
        r matches Some(a) ==> a.spec_name().spec_bytes() == name.spec_bytes(),
{
    if same_text(name, HashAlgorithm::Blake2b512.name()) {
        return Some(HashAlgorithm::Blake2b512);
    }
    if same_text(name, HashAlgorithm::Keccak224.name()) {
        return Some(HashAlgorithm::Keccak224);
    }
    if same_text(name, HashAlgorithm::Keccak256.name()) {
        return Some(HashAlgorithm::Keccak256);
    }
    if same_text(name, HashAlgorithm::Keccak384.name()) {
        return Some(HashAlgorithm::Keccak384);
    }
    if same_text(name, HashAlgorithm::Keccak512.name()) {
        return Some(HashAlgorithm::Keccak512);
    }
    if same_text(name, HashAlgorithm::Md4.name()) {
        return Some(HashAlgorithm::Md4);
    }
    if same_text(name, HashAlgorithm::Md5.name()) {
        return Some(HashAlgorithm::Md5);
    }
    if same_text(name, HashAlgorithm::Sha1.name()) {
        return Some(HashAlgorithm::Sha1);
    }
    if same_text(name, HashAlgorithm::Sha2_224.name()) {
        return Some(HashAlgorithm::Sha2_224);
    }
    if same_text(name, HashAlgorithm::Sha2_256.name()) {
        return Some(HashAlgorithm::Sha2_256);
    }
    if same_text(name, HashAlgorithm::Sha2_384.name()) {
        return Some(HashAlgorithm::Sha2_384);
    }
    if same_text(name, HashAlgorithm::Sha2_512.name()) {
        return Some(HashAlgorithm::Sha2_512);
    }
    if same_text(name, HashAlgorithm::Sha3_224.name()) {
        return Some(HashAlgorithm::Sha3_224);
    }
    if same_text(name, HashAlgorithm::Sha3_256.name()) {
        return Some(HashAlgorithm::Sha3_256);
    }
    if same_text(name, HashAlgorithm::Sha3_384.name()) {
        return Some(HashAlgorithm::Sha3_384);
    }
    if same_text(name, HashAlgorithm::Sha3_512.name()) {
        return Some(HashAlgorithm::Sha3_512);
    }
    assert forall|a: HashAlgorithm| #[trigger] a.spec_name().spec_bytes() != name.spec_bytes() by {
        match a {
            HashAlgorithm::Blake2b512 => {},
            HashAlgorithm::Keccak224 => {},
            HashAlgorithm::Keccak256 => {},
            HashAlgorithm::Keccak384 => {},
            HashAlgorithm::Keccak512 => {},
            HashAlgorithm::Md4 => {},
            HashAlgorithm::Md5 => {},
            HashAlgorithm::Sha1 => {},
            HashAlgorithm::Sha2_224 => {},
            HashAlgorithm::Sha2_256 => {},
            HashAlgorithm::Sha2_384 => {},
            HashAlgorithm::Sha2_512 => {},
            HashAlgorithm::Sha3_224 => {},
            HashAlgorithm::Sha3_256 => {},
            HashAlgorithm::Sha3_384 => {},
            HashAlgorithm::Sha3_512 => {},
        }
    }
    None
}

/// The names of all algorithms, in a fixed order.
pub fn available_hash_algorithms() -> (r: Vec<&'static str>)
    ensures
        r@.len() == all_algorithms().len(),
        forall|i: int| 0 <= i < r@.len() ==> r@[i] == (#[trigger] all_algorithms()[i]).spec_name(),
{
    let mut r: Vec<&'static str> = Vec::new();
    r.push(HashAlgorithm::Blake2b512.name());
    r.push(HashAlgorithm::Keccak224.name());
    r.push(HashAlgorithm::Keccak256.name());
    r.push(HashAlgorithm::Keccak384.name());
    r.push(HashAlgorithm::Keccak512.name());
    r.push(HashAlgorithm::Md4.name());
    r.push(HashAlgorithm::Md5.name());
    r.push(HashAlgorithm::Sha1.name());
    r.push(HashAlgorithm::Sha2_224.name());
    r.push(HashAlgorithm::Sha2_256.name());
    r.push(HashAlgorithm::Sha2_384.name());
    r.push(HashAlgorithm::Sha2_512.name());
    r.push(HashAlgorithm::Sha3_224.name());
    r.push(HashAlgorithm::Sha3_256.name());
    r.push(HashAlgorithm::Sha3_384.name());
    r.push(HashAlgorithm::Sha3_512.name());
    r
}

/// Hashes `content` with the algorithm called `hash_name`, and writes the
/// digest in lower-case hexadecimal.
pub fn hashing_varchar(hash_name: &str, content: &[u8]) -> (r: Result<String, HashError>)
    ensures
        !is_known_name(hash_name) ==> r == Err::<String, HashError>(HashError::UnknownAlgorithm),
        is_known_name(hash_name) ==> r is Ok && exists|a: HashAlgorithm|
            #[trigger] a.spec_name().spec_bytes() == hash_name.spec_bytes() && is_lower_hex_of(
                r->Ok_0@,
                hash_digest(a, content@),
            ) && r->Ok_0@.len() == 2 * a.digest_len(),
{
    match select_hasher(hash_name) {
        None => Err(HashError::UnknownAlgorithm),
        Some(a) => {
            let d = digest_with(a, content);
            Ok(lower_hex(d.as_slice()))
        },
    }
}

/// The HMAC of `content` under `key` with the algorithm called `hash_name`,
/// in lower-case hexadecimal.
pub fn hmac_varchar(hash_name: &str, key: &[u8], content: &[u8]) -> (r: Result<String, HashError>)
    ensures
        !is_known_name(hash_name) ==> r == Err::<String, HashError>(HashError::UnknownAlgorithm),
        is_known_name(hash_name) ==> r is Ok && exists|a: HashAlgorithm|
            #[trigger] a.spec_name().spec_bytes() == hash_name.spec_bytes() && is_lower_hex_of(
                r->Ok_0@,
                hmac_digest(a, key@, content@),
            ) && r->Ok_0@.len() == 2 * a.digest_len(),
{
    match select_hasher(hash_name) {
        None => Err(HashError::UnknownAlgorithm),
        Some(a) => {
            let d = hmac_with(a, key, content);
            Ok(lower_hex(d.as_slice()))
        },
    }
}

} // verus!
