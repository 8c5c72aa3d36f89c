use sha2::Digest;
use tappd::{bind, to_report_data_with_hash, BindError, HashAlgorithm};

fn padded(d: &[u8]) -> Vec<u8> {
    let mut v = d.to_vec();
    v.resize(64, 0);
    v
}

#[test]
fn sha256_binding_matches_manual_digest() {
    let content = b"some application data";
    let got = to_report_data_with_hash(content, "sha256").unwrap();
    let want = sha2::Sha256::digest(b"app-data:some application data");
    assert_eq!(got, padded(&want));
    assert!(got[32..].iter().all(|b| *b == 0));
}

#[test]
fn every_hash_binding_is_64_bytes_and_repeatable() {
    let names = [
        "", "sha256", "sha384", "sha512", "sha3-256", "sha3-384", "sha3-512", "keccak256",
        "keccak384", "keccak512",
    ];
    for name in names {
        let a = to_report_data_with_hash(b"x", name).unwrap();
        let b = to_report_data_with_hash(b"x", name).unwrap();
        assert_eq!(a.len(), 64, "{name}");
        assert_eq!(a, b, "{name}");
    }
}

#[test]
fn each_algorithm_uses_its_own_digest() {
    let msg = b"app-data:abc";
    let cases: Vec<(&str, Vec<u8>)> = vec![
        ("sha384", sha2::Sha384::digest(msg).to_vec()),
        ("sha512", sha2::Sha512::digest(msg).to_vec()),
        ("sha3-256", sha3::Sha3_256::digest(msg).to_vec()),
        ("sha3-384", sha3::Sha3_384::digest(msg).to_vec()),
        ("sha3-512", sha3::Sha3_512::digest(msg).to_vec()),
        ("keccak256", sha3::Keccak256::digest(msg).to_vec()),
        ("keccak384", sha3::Keccak384::digest(msg).to_vec()),
        ("keccak512", sha3::Keccak512::digest(msg).to_vec()),
    ];
    for (name, digest) in cases {
        assert_eq!(to_report_data_with_hash(b"abc", name).unwrap(), padded(&digest), "{name}");
    }
}

#[test]
fn empty_selector_means_sha512() {
    assert_eq!(
        to_report_data_with_hash(b"abc", "").unwrap(),
        to_report_data_with_hash(b"abc", "sha512").unwrap()
    );
}

#[test]
fn raw_keeps_exactly_64_bytes() {
    let content: Vec<u8> = (0u8..64).collect();
    assert_eq!(to_report_data_with_hash(&content, "raw").unwrap(), content);
    assert_eq!(to_report_data_with_hash(&content[..63], "raw"), Err(BindError::InvalidLength));
    let long = vec![1u8; 65];
    assert_eq!(to_report_data_with_hash(&long, "raw"), Err(BindError::InvalidLength));
}

#[test]
fn unknown_selector_is_refused() {
    assert_eq!(to_report_data_with_hash(b"abc", "unknown-alg"), Err(BindError::UnsupportedAlgorithm));
    assert_eq!(to_report_data_with_hash(b"abc", "SHA256"), Err(BindError::UnsupportedAlgorithm));
}

#[test]
fn selector_names_are_exact() {
    assert_eq!(HashAlgorithm::from_name("keccak256"), Some(HashAlgorithm::Keccak256));
    assert_eq!(HashAlgorithm::from_name("sha3-384"), Some(HashAlgorithm::Sha3_384));
    assert_eq!(HashAlgorithm::from_name("raw"), Some(HashAlgorithm::Raw));
    assert_eq!(HashAlgorithm::from_name(""), Some(HashAlgorithm::Sha512));
    assert_eq!(HashAlgorithm::from_name("sha256 "), None);
}

#[test]
fn bind_uses_the_given_tag() {
    let got = bind(b"other", b"abc", HashAlgorithm::Sha256).unwrap();
    assert_eq!(got, padded(&sha2::Sha256::digest(b"other:abc")));
    assert_ne!(got, to_report_data_with_hash(b"abc", "sha256").unwrap());
}
