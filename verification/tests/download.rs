use centy_installer::download::{
    accept_asset, asset_digest, check_digest, expected_checksum, verify_asset,
};
use centy_installer::github::HttpReply;

fn sha256_hex(data: &[u8]) -> String {
    hex::encode(<sha2::Sha256 as sha2::Digest>::digest(data))
}

fn checksums_reply(body: &str) -> HttpReply {
    HttpReply::Answered { status: 200, body: Ok(body.to_string()) }
}

#[test]
fn download_and_verify_success() {
    let asset_bytes = b"fake-binary-data";
    let expected_hash = sha256_hex(asset_bytes);
    let checksums_body = format!("{expected_hash}  test-asset.tar.gz\n");

    let expected =
        expected_checksum(&checksums_reply(&checksums_body), "test-asset.tar.gz").unwrap();
    let result = accept_asset(Ok(asset_bytes.to_vec()), &expected).unwrap();
    assert_eq!(result.bytes, asset_bytes);
}

#[test]
fn download_and_verify_checksum_mismatch() {
    let checksums_body = "deadbeef00000000000000000000000000000000000000000000000000000000  test-asset.tar.gz\n";
    let expected =
        expected_checksum(&checksums_reply(checksums_body), "test-asset.tar.gz").unwrap();
    let result = accept_asset(Ok(b"some-data".to_vec()), &expected);
    assert!(result.is_err());
    assert!(result.unwrap_err().contains("checksum mismatch"));
}

#[test]
fn download_and_verify_asset_not_in_checksums() {
    let checksums_body = "abc123  other-asset.tar.gz\n";
    let result = expected_checksum(&checksums_reply(checksums_body), "test-asset.tar.gz");
    assert!(result.is_err());
    assert!(result.unwrap_err().contains("checksum not found"));
}

#[test]
fn download_and_verify_checksums_connection_error() {
    let reply = HttpReply::Failed("connection refused".to_string());
    let result = expected_checksum(&reply, "asset.tar.gz");
    assert!(result.is_err());
    assert!(result.unwrap_err().contains("failed to download checksums"));
}

#[test]
fn download_and_verify_asset_connection_error() {
    let asset_bytes = b"data";
    let expected_hash = sha256_hex(asset_bytes);
    let checksums_body = format!("{expected_hash}  test-asset.tar.gz\n");
    let expected =
        expected_checksum(&checksums_reply(&checksums_body), "test-asset.tar.gz").unwrap();

    let result = accept_asset(Err("connection refused".to_string()), &expected);
    assert!(result.is_err());
    assert!(result.unwrap_err().contains("failed to download asset"));
}

#[test]
fn expected_checksum_refuses_error_status() {
    let reply = HttpReply::Answered { status: 404, body: Ok("abc  asset.tar.gz\n".to_string()) };
    assert_eq!(
        expected_checksum(&reply, "asset.tar.gz").unwrap_err(),
        "failed to download checksums: HTTP status 404"
    );
    let reply = HttpReply::Answered { status: 200, body: Err("reset by peer".to_string()) };
    assert_eq!(
        expected_checksum(&reply, "asset.tar.gz").unwrap_err(),
        "failed to download checksums: reset by peer"
    );
    let reply = HttpReply::Failed("dns error".to_string());
    assert_eq!(
        expected_checksum(&reply, "asset.tar.gz").unwrap_err(),
        "failed to download checksums: dns error"
    );
}

#[test]
fn asset_digest_known_values() {
    assert_eq!(
        asset_digest(b"abc"),
        "ba7816bf8f01cfea414140de5dae2223b00361a396177a9cb410ff61f20015ad"
    );
    assert_eq!(
        asset_digest(b""),
        "e3b0c44298fc1c149afbf4c8996fb92427ae41e4649b934ca495991b7852b855"
    );
}

#[test]
fn verify_asset_returns_the_exact_bytes() {
    let bytes: Vec<u8> = (0..=255u8).collect();
    let digest = sha256_hex(&bytes);
    let asset = verify_asset(bytes.clone(), &digest).unwrap();
    assert_eq!(asset.bytes, bytes);
}

#[test]
fn verify_asset_refuses_every_single_byte_corruption() {
    let genuine = b"the quick brown fox".to_vec();
    let digest = sha256_hex(&genuine);
    assert!(verify_asset(genuine.clone(), &digest).is_ok());
    for at in 0..genuine.len() {
        let mut corrupted = genuine.clone();
        corrupted[at] ^= 0x01;
        let message = verify_asset(corrupted.clone(), &digest).unwrap_err();
        assert_eq!(
            message,
            format!("checksum mismatch: expected {digest}, got {}", sha256_hex(&corrupted))
        );
    }
    let mut longer = genuine.clone();
    longer.push(0);
    assert!(verify_asset(longer, &digest).is_err());
}

#[test]
fn verify_asset_ignores_the_case_of_the_declared_digest() {
    let bytes = b"abc".to_vec();
    let upper = "BA7816BF8F01CFEA414140DE5DAE2223B00361A396177A9CB410FF61F20015AD";
    assert_eq!(verify_asset(bytes.clone(), upper).unwrap().bytes, bytes);
    let mixed = "Ba7816bf8f01cfea414140de5dae2223b00361a396177a9cb410ff61f20015aD";
    assert_eq!(verify_asset(bytes.clone(), mixed).unwrap().bytes, bytes);
}

#[test]
fn verify_asset_refuses_other_digests() {
    let bytes = b"abc".to_vec();
    let actual = "ba7816bf8f01cfea414140de5dae2223b00361a396177a9cb410ff61f20015ad";
    for declared in [
        "",
        "ba7816bf",
        "ba7816bf8f01cfea414140de5dae2223b00361a396177a9cb410ff61f20015ae",
        "ba7816bf8f01cfea414140de5dae2223b00361a396177a9cb410ff61f20015ad0",
    ] {
        assert_eq!(
            verify_asset(bytes.clone(), declared).unwrap_err(),
            format!("checksum mismatch: expected {declared}, got {actual}")
        );
    }
}

#[test]
fn check_digest_on_plain_values() {
    assert_eq!(check_digest(vec![1, 2, 3], "AB12", "ab12").unwrap().bytes, vec![1, 2, 3]);
    assert_eq!(check_digest(vec![], "", "").unwrap().bytes, Vec::<u8>::new());
    assert_eq!(
        check_digest(vec![1], "ab12", "ab13").unwrap_err(),
        "checksum mismatch: expected ab12, got ab13"
    );
    assert_eq!(
        check_digest(vec![1], "ab1", "ab12").unwrap_err(),
        "checksum mismatch: expected ab1, got ab12"
    );
}
