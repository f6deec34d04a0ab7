//! Trusting a downloaded asset: the digest of its bytes must be the one
//! that the checksum manifest declares for it.

use vstd::prelude::*;
use crate::github::{checksum_not_found, is_success, manifest_digest, parse_checksum, HttpReply};
use crate::text::{decimal, decimal_string, lower, lower_char, same_text_ignoring_case};

verus! {

/// An archive whose digest was found equal to the declared one.
#[derive(Debug)]
pub struct DownloadedAsset {
    /// The archive, byte for byte as it was received.
    pub bytes: Vec<u8>,
}

/// The SHA-256 digest of `data`.
pub uninterp spec fn sha256_digest(data: Seq<u8>) -> Seq<u8>;

/// The lower-case hexadecimal digit for `n`, for `n` below sixteen.
pub open spec fn hex_digit(n: int) -> char {
    if n == 0 {
        '0'
    } else if n == 1 {
        '1'
    } else if n == 2 {
        '2'
    } else if n == 3 {
        '3'
    } else if n == 4 {
        '4'
    } else if n == 5 {
        '5'
    } else if n == 6 {
        '6'
    } else if n == 7 {
        '7'
    } else if n == 8 {
        '8'
    } else if n == 9 {
        '9'
    } else if n == 10 {
        'a'
    } else if n == 11 {
        'b'
    } else if n == 12 {
        'c'
    } else if n == 13 {
        'd'
    } else if n == 14 {
        'e'
    } else {
        'f'
    }
}

/// `data` in hexadecimal: two lower-case digits for each byte, the high
/// half first.
pub open spec fn hex_lower(data: Seq<u8>) -> Seq<char> {
    Seq::new(
        2 * data.len(),
        |i: int|
            if i % 2 == 0 {
                hex_digit(data[i / 2] as int / 16)
            } else {
                hex_digit(data[i / 2] as int % 16)
            },
    )
}

/// Calls `sha2::Sha256::digest`, the one-shot form of the SHA-256 hasher.
/// The contract only names the digest: it is a function of the data.
#[verifier::external_body]
fn sha256(data: &[u8]) -> (digest: Vec<u8>)
    ensures
        digest@ == sha256_digest(data@),
{
    <sha2::Sha256 as sha2::Digest>::digest(data).to_vec()
}

/// Calls `hex::encode`, which writes each byte as two lower-case
/// hexadecimal digits, in order.
#[verifier::external_body]
fn hex_encode(data: &[u8]) -> (text: String)
    ensures
        text@ == hex_lower(data@),
{
    hex::encode(data)
}

/// The digest of an asset as manifests write it: SHA-256, in lower-case
/// hexadecimal.
pub open spec fn asset_digest_of(bytes: Seq<u8>) -> Seq<char> {
    hex_lower(sha256_digest(bytes))
}

/// Whether two digests are the same, letter case aside.
pub open spec fn same_digest(expected: Seq<char>, actual: Seq<char>) -> bool {
    lower(expected) == lower(actual)
}

/// The message that reports a digest other than the declared one.
pub open spec fn checksum_mismatch(expected: Seq<char>, actual: Seq<char>) -> Seq<char> {
    "checksum mismatch: expected "@ + expected + ", got "@ + actual
}

/// The message that reports that the manifest could not be fetched.
pub open spec fn checksums_unavailable(cause: Seq<char>) -> Seq<char> {
    "failed to download checksums: "@ + cause
}

/// A status code in words.
pub open spec fn status_text(status: u16) -> Seq<char> {
    "HTTP status "@ + decimal(status as nat)
}

/// The message that reports that the asset could not be fetched.
pub open spec fn asset_unavailable(cause: Seq<char>) -> Seq<char> {
    "failed to download asset: "@ + cause
}

proof fn lemma_hex_digit_injective(a: int, b: int)
    requires
        0 <= a < 16,
        0 <= b < 16,
        hex_digit(a) == hex_digit(b),
    ensures
        a == b,
{
}

/// Different data have different hexadecimal forms.
pub proof fn lemma_hex_lower_injective(a: Seq<u8>, b: Seq<u8>)
    requires
        hex_lower(a) == hex_lower(b),
    ensures
        a == b,
{
    let x = hex_lower(a);
    let y = hex_lower(b);
    assert(x.len() == 2 * a.len());
    assert(y.len() == 2 * b.len());
    assert(a.len() == b.len());
    assert forall|i: int| 0 <= i < a.len() implies a[i] == b[i] by {
        assert(x[2 * i] == y[2 * i]);
        assert(x[2 * i + 1] == y[2 * i + 1]);
        assert((2 * i) / 2 == i && (2 * i) % 2 == 0);
        assert((2 * i + 1) / 2 == i && (2 * i + 1) % 2 == 1);
        lemma_hex_digit_injective(a[i] as int / 16, b[i] as int / 16);
        lemma_hex_digit_injective(a[i] as int % 16, b[i] as int % 16);
    }
    assert(a =~= b);
}

/// The hexadecimal form of data holds no upper-case letter.
pub proof fn lemma_hex_lower_is_lower(data: Seq<u8>)
    ensures
        lower(hex_lower(data)) == hex_lower(data),
{
    let x = hex_lower(data);
    assert forall|i: int| 0 <= i < x.len() implies lower_char(x[i]) == x[i] by {
        let n = if i % 2 == 0 {
            data[i / 2] as int / 16
        } else {
            data[i / 2] as int % 16
        };
        assert(x[i] == hex_digit(n));
    }
    assert(lower(x) =~= x);
}

/// The comparison is one of strict equality: under a declared digest that
/// some asset meets, bytes with any other SHA-256 digest are refused.
pub proof fn altered_asset_is_refused(expected: Seq<char>, genuine: Seq<u8>, altered: Seq<u8>)
    requires
        same_digest(expected, asset_digest_of(genuine)),
        sha256_digest(altered) != sha256_digest(genuine),
    ensures
        !same_digest(expected, asset_digest_of(altered)),
{
    lemma_hex_lower_is_lower(sha256_digest(genuine));
    lemma_hex_lower_is_lower(sha256_digest(altered));
    if same_digest(expected, asset_digest_of(altered)) {
        lemma_hex_lower_injective(sha256_digest(altered), sha256_digest(genuine));
    }
}

/// Computes the digest of an asset as manifests write it.
pub fn asset_digest(bytes: &[u8]) -> (digest: String)
    ensures
        digest@ == asset_digest_of(bytes@),
{
    let raw = sha256(bytes);
    hex_encode(raw.as_slice())
}

/// Decides between a download and its use: the asset is handed on, byte
/// for byte, exactly if `actual`, the digest computed from it, is
/// `expected`, the digest declared for it, letter case aside. Otherwise
/// the asset is dropped and the error shows both digests.
pub fn check_digest(bytes: Vec<u8>, expected: &str, actual: &str) -> (r: Result<
    DownloadedAsset,
    String,
>)
    ensures
        same_digest(expected@, actual@) ==> r is Ok && r->Ok_0.bytes@ == bytes@,
        !same_digest(expected@, actual@) ==> r is Err && r->Err_0@ == checksum_mismatch(
            expected@,
            actual@,
        ),
{
    if same_text_ignoring_case(expected, actual) {
        Ok(DownloadedAsset { bytes })
    } else {
        let mut message = String::from_str("checksum mismatch: expected ");
        message.append(expected);
        message.append(", got ");
        message.append(actual);
        Err(message)
    }
}

/// Verifies downloaded bytes against the digest declared for them.
pub fn verify_asset(bytes: Vec<u8>, expected: &str) -> (r: Result<DownloadedAsset, String>)
    ensures
        same_digest(expected@, asset_digest_of(bytes@)) ==> r is Ok && r->Ok_0.bytes@ == bytes@,
        !same_digest(expected@, asset_digest_of(bytes@)) ==> r is Err && r->Err_0@
            == checksum_mismatch(expected@, asset_digest_of(bytes@)),
{
    let actual = asset_digest(bytes.as_slice());
    check_digest(bytes, expected, actual.as_str())
}

/// The first half of a verified download: what the answer to the request
/// for the checksum manifest means. The result is the digest declared for
/// `asset_name`, with which the asset is then fetched and checked. A
/// request that failed, or was answered with a status other than success,
/// fails the download.
pub fn expected_checksum(reply: &HttpReply, asset_name: &str) -> (r: Result<String, String>)
    ensures
        match *reply {
            HttpReply::Failed(cause) => r is Err && r->Err_0@ == checksums_unavailable(cause@),
            HttpReply::Answered { status, body } => if !is_success(status) {
                r is Err && r->Err_0@ == checksums_unavailable(status_text(status))
            } else {
                match body {
                    Err(cause) => r is Err && r->Err_0@ == checksums_unavailable(cause@),
                    Ok(text) => match manifest_digest(text@, asset_name@) {
                        Some(digest) => r is Ok && r->Ok_0@ == digest,
                        None => r is Err && r->Err_0@ == checksum_not_found(asset_name@),
                    },
                }
            },
        },
{
    let mut message = String::from_str("failed to download checksums: ");
    match reply {
        HttpReply::Failed(cause) => {
            message.append(cause.as_str());
            Err(message)
        },
        HttpReply::Answered { status, body } => {
            if *status < 200 || *status > 299 {
                let number = decimal_string(*status as u32);
                message.append("HTTP status ");
                message.append(number.as_str());
                assert(message@ =~= checksums_unavailable(status_text(*status)));
                return Err(message);
            }
            match body {
                Err(cause) => {
                    message.append(cause.as_str());
                    Err(message)
                },
                Ok(text) => parse_checksum(text.as_str(), asset_name),
            }
        },
    }
}

/// The second half of a verified download: what the fetch of the asset
/// means. `reply` is the asset's bytes, or the reason why they could not
/// be fetched. Bytes are handed on only if their digest is `expected`.
pub fn accept_asset(reply: Result<Vec<u8>, String>, expected: &str) -> (r: Result<
    DownloadedAsset,
    String,
>)
    ensures
        match reply {
            Err(cause) => r is Err && r->Err_0@ == asset_unavailable(cause@),
            Ok(bytes) => if same_digest(expected@, asset_digest_of(bytes@)) {
                r is Ok && r->Ok_0.bytes@ == bytes@
            } else {
                r is Err && r->Err_0@ == checksum_mismatch(expected@, asset_digest_of(bytes@))
            },
        },
{
    match reply {
        Err(cause) => {
            let mut message = String::from_str("failed to download asset: ");
            message.append(cause.as_str());
            Err(message)
        },
        Ok(bytes) => verify_asset(bytes, expected),
    }
}

} // verus!
