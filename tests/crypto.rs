use lindel_codec::crypto::{
    available_hash_algorithms, digest_with, hashing_varchar, hmac_varchar, select_hasher,
    HashAlgorithm, HashError,
};
use lindel_codec::host::DuckDBAllocator;

#[test]
fn lists_sixteen_algorithms() {
    let names = available_hash_algorithms();
    assert_eq!(names.len(), 16);
    assert_eq!(names[0], "blake2b-512");
    assert_eq!(names[6], "md5");
    assert_eq!(names[15], "sha3-512");
    for name in names {
        let a = select_hasher(name).unwrap();
        assert_eq!(a.name(), name);
    }
}

#[test]
fn unknown_names_are_refused() {
    assert_eq!(select_hasher("sha256"), None);
    assert_eq!(select_hasher(""), None);
    assert_eq!(select_hasher("MD5"), None);
    assert_eq!(hashing_varchar("nope", b"abc"), Err(HashError::UnknownAlgorithm));
    assert_eq!(hmac_varchar("nope", b"k", b"abc"), Err(HashError::UnknownAlgorithm));
}

#[test]
fn known_digests() {
    assert_eq!(
        hashing_varchar("md5", b"").unwrap(),
        "d41d8cd98f00b204e9800998ecf8427e"
    );
    assert_eq!(
        hashing_varchar("sha1", b"abc").unwrap(),
        "a9993e364706816aba3e25717850c26c9cd0d89d"
    );
    assert_eq!(
        hashing_varchar("sha2-256", b"abc").unwrap(),
        "ba7816bf8f01cfea414140de5dae2223b00361a396177a9cb410ff61f20015ad"
    );
    assert_eq!(digest_with(HashAlgorithm::Md5, b"").len(), 16);
}

#[test]
fn known_hmac() {
    assert_eq!(
        hmac_varchar("sha2-256", b"key", b"The quick brown fox jumps over the lazy dog").unwrap(),
        "f7bc83f430538424b13298e6aa6fb143ef4d59a14946175997479dbc2d1a3cd8"
    );
    assert_eq!(
        hmac_varchar("md5", b"key", b"The quick brown fox jumps over the lazy dog").unwrap(),
        "80070713463e7749b90c2dc24911e275"
    );
}

#[test]
fn every_algorithm_hashes() {
    for name in available_hash_algorithms() {
        let h = hashing_varchar(name, b"duck").unwrap();
        assert!(h.len() >= 32);
        assert!(h.chars().all(|c| c.is_ascii_hexdigit() && !c.is_ascii_uppercase()));
        let m = hmac_varchar(name, b"secret", b"duck").unwrap();
        assert!(m.len() >= 32);
        assert_ne!(h, m);
    }
}

#[test]
fn allocator_handle() {
    let _a = DuckDBAllocator::new();
}

#[test]
fn hmac_standard_vectors() {
    let key = b"Jefe";
    let data = b"what do ya want for nothing?";
    assert_eq!(
        hmac_varchar("sha2-256", key, data).unwrap(),
        "5bdcc146bf60754e6a042426089575c75a003f089d2739839dec58b964ec3843"
    );
    assert_eq!(hmac_varchar("md5", key, data).unwrap(), "750c783e6ab0b503eaa86e310a5db738");
    assert_eq!(
        hmac_varchar("sha1", key, data).unwrap(),
        "effcdf6ae5eb2fa2d27416d5f184df9c259a7c79"
    );
}

#[test]
fn hmac_accepts_any_key_length() {
    let long_key = vec![0xaau8; 300];
    for name in available_hash_algorithms() {
        assert!(hmac_varchar(name, b"", b"x").is_ok());
        assert!(hmac_varchar(name, &long_key, b"x").is_ok());
    }
}

#[test]
fn hex_length_is_twice_the_digest() {
    let expected = [
        ("blake2b-512", 64),
        ("keccak224", 28),
        ("keccak256", 32),
        ("keccak384", 48),
        ("keccak512", 64),
        ("md4", 16),
        ("md5", 16),
        ("sha1", 20),
        ("sha2-224", 28),
        ("sha2-256", 32),
        ("sha2-384", 48),
        ("sha2-512", 64),
        ("sha3-224", 28),
        ("sha3-256", 32),
        ("sha3-384", 48),
        ("sha3-512", 64),
    ];
    for (name, len) in expected {
        let a = select_hasher(name).unwrap();
        assert_eq!(digest_with(a, b"abc").len(), len);
        assert_eq!(hashing_varchar(name, b"abc").unwrap().len(), 2 * len);
        assert_eq!(hmac_varchar(name, b"k", b"abc").unwrap().len(), 2 * len);
    }
}
