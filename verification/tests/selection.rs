use hasher::algorithm::{HashAlgorithm, HexHasher};
use hasher::error::HashError;
use hasher::HashAlgorithms;

#[test]
fn each_supported_name_gives_its_algorithm() {
    assert_eq!(HashAlgorithm::of("siphash").unwrap(), HashAlgorithm::SipHash);
    assert_eq!(HashAlgorithm::of("sha1").unwrap(), HashAlgorithm::Sha1);
    assert_eq!(HashAlgorithm::of("md5").unwrap(), HashAlgorithm::MD5);
}

#[test]
fn an_unknown_name_is_an_error_that_carries_the_name() {
    match HashAlgorithm::of("sha256") {
        Err(HashError::UnknownAlgorithm(name)) => assert_eq!(name, "sha256"),
        other => panic!("expected an unknown algorithm, got {:?}", other),
    }
}

#[test]
fn names_are_matched_exactly() {
    for name in ["", "SHA1", "Md5", "sha1 ", " siphash", "sha", "md55", "shiphash", "sha-1"] {
        match HashAlgorithm::of(name) {
            Err(HashError::UnknownAlgorithm(kept)) => assert_eq!(kept, name),
            other => panic!("expected an unknown algorithm for {:?}, got {:?}", name, other),
        }
    }
}

#[test]
fn no_name_falls_back_to_an_algorithm() {
    assert!(HashAlgorithm::of("anything else").is_err());
    assert!(HashAlgorithms::of("anything else").is_err());
}

#[test]
fn the_command_line_names_give_their_selection() {
    assert_eq!(HashAlgorithms::of("shiphash").unwrap(), HashAlgorithms::ShipHash);
    assert_eq!(HashAlgorithms::of("sha1").unwrap(), HashAlgorithms::Sha1);
}

#[test]
fn siphash_is_selected_by_its_own_name_too() {
    assert_eq!(HashAlgorithms::of("siphash").unwrap(), HashAlgorithms::ShipHash);
    assert_eq!(
        HashAlgorithms::of("siphash").unwrap().hex_str(&mut "test".as_bytes()),
        "3d5124c4cd58914e"
    );
}

#[test]
fn a_selection_runs_its_algorithm() {
    assert_eq!(HashAlgorithms::ShipHash.algorithm(), HashAlgorithm::SipHash);
    assert_eq!(HashAlgorithms::Sha1.algorithm(), HashAlgorithm::Sha1);
}

#[test]
fn the_command_line_knows_no_other_name() {
    for name in ["md5", "", "SHA1", "SipHash", "shiphash ", "siphash24", "ship"] {
        match HashAlgorithms::of(name) {
            Err(HashError::UnknownAlgorithm(kept)) => assert_eq!(kept, name),
            other => panic!("expected an unknown algorithm for {:?}, got {:?}", name, other),
        }
    }
}

#[test]
fn a_selection_hashes_as_its_algorithm_does() {
    assert_eq!(HashAlgorithms::ShipHash.hex_str(&mut "test".as_bytes()), "3d5124c4cd58914e");
    assert_eq!(
        HashAlgorithms::Sha1.hex_str(&mut "test".as_bytes()),
        "a94a8fe5ccb19ba61c4c0873d391e987982fbbd3"
    );
    assert_eq!(
        HashAlgorithms::ShipHash.hex_str(&mut "other".as_bytes()),
        HashAlgorithm::SipHash.hex_str(&mut "other".as_bytes())
    );
}

#[test]
fn an_unknown_name_is_reported_with_the_name() {
    let error = HashAlgorithm::of("crc32").unwrap_err();

    assert_eq!(error.message(), "unknown algorithm: crc32");
}

#[test]
fn a_failed_read_is_reported_as_its_cause_says() {
    let cause = std::io::Error::new(std::io::ErrorKind::PermissionDenied, "no way in");
    let error = HashError::SourceReadFailure(cause);

    assert_eq!(error.message(), "no way in");
}
