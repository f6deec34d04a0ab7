use centy_installer::github::{
    latest_tag, parse_checksum, release_info, resolve_latest, resolve_version,
    resolve_version_from, HttpReply, VersionPlan, ACCEPT_LISTING, USER_AGENT,
};
use centy_installer::platform::Platform;

fn pinned(plan: VersionPlan) -> String {
    match plan {
        VersionPlan::Pinned(tag) => tag,
        VersionPlan::Latest(url) => panic!("expected a pinned tag, got a request for {url}"),
    }
}

fn listing_reply(status: u16, body: &str) -> HttpReply {
    HttpReply::Answered { status, body: Ok(body.to_string()) }
}

#[test]
fn parse_checksum_found() {
    let checksums = "\
abc123  centy-daemon-0.1.0-aarch64-apple-darwin.tar.gz
def456  centy-daemon-0.1.0-x86_64-unknown-linux-gnu.tar.gz
";
    let hash =
        parse_checksum(checksums, "centy-daemon-0.1.0-aarch64-apple-darwin.tar.gz").unwrap();
    assert_eq!(hash, "abc123");
}

#[test]
fn parse_checksum_second_entry() {
    let checksums = "\
abc123  centy-daemon-0.1.0-aarch64-apple-darwin.tar.gz
def456  centy-daemon-0.1.0-x86_64-unknown-linux-gnu.tar.gz
";
    let hash = parse_checksum(
        checksums,
        "centy-daemon-0.1.0-x86_64-unknown-linux-gnu.tar.gz",
    )
    .unwrap();
    assert_eq!(hash, "def456");
}

#[test]
fn parse_checksum_single_space_separator() {
    let checksums = "abc123 my-asset.tar.gz\n";
    let hash = parse_checksum(checksums, "my-asset.tar.gz").unwrap();
    assert_eq!(hash, "abc123");
}

#[test]
fn parse_checksum_not_found() {
    let checksums = "abc123  other-file.tar.gz\n";
    let result = parse_checksum(checksums, "missing.tar.gz");
    assert!(result.is_err());
    assert!(result
        .unwrap_err()
        .contains("checksum not found for missing.tar.gz"));
}

#[test]
fn parse_checksum_empty_input() {
    let result = parse_checksum("", "anything.tar.gz");
    assert!(result.is_err());
}

#[test]
fn parse_checksum_blank_lines() {
    let checksums = "\n\nabc123  target.tar.gz\n\n";
    let hash = parse_checksum(checksums, "target.tar.gz").unwrap();
    assert_eq!(hash, "abc123");
}

#[test]
fn parse_checksum_not_found_message_is_exact() {
    let result = parse_checksum("abc123  other-file.tar.gz\n", "missing.tar.gz");
    assert_eq!(
        result.unwrap_err(),
        "checksum not found for missing.tar.gz in checksums file"
    );
}

#[test]
fn parse_checksum_double_space_and_single_space_agree() {
    assert_eq!(parse_checksum("0a1b  file.zip", "file.zip").unwrap(), "0a1b");
    assert_eq!(parse_checksum("0a1b file.zip", "file.zip").unwrap(), "0a1b");
    assert_eq!(parse_checksum("0a1b\tfile.zip", "file.zip").unwrap(), "0a1b");
}

#[test]
fn parse_checksum_first_match_wins() {
    let checksums = "first  dup.tar.gz\nsecond  dup.tar.gz\n";
    assert_eq!(parse_checksum(checksums, "dup.tar.gz").unwrap(), "first");
}

#[test]
fn parse_checksum_skips_lines_without_two_fields() {
    let checksums = "lonely\none two three\nabc123  wanted.tar.gz\n";
    assert_eq!(parse_checksum(checksums, "wanted.tar.gz").unwrap(), "abc123");
    assert!(parse_checksum("one wanted.tar.gz three\n", "wanted.tar.gz").is_err());
    assert!(parse_checksum("wanted.tar.gz\n", "wanted.tar.gz").is_err());
}

#[test]
fn parse_checksum_matches_file_name_exactly() {
    let checksums = "abc123  dir/wanted.tar.gz\ndef456  wanted.tar.gz.sig\n";
    assert!(parse_checksum(checksums, "wanted.tar.gz").is_err());
    assert!(parse_checksum("abc123  Wanted.tar.gz\n", "wanted.tar.gz").is_err());
}

#[test]
fn parse_checksum_tolerates_carriage_returns_and_padding() {
    let checksums = "abc123  one.tar.gz\r\n  def456   two.tar.gz  \r\n";
    assert_eq!(parse_checksum(checksums, "one.tar.gz").unwrap(), "abc123");
    assert_eq!(parse_checksum(checksums, "two.tar.gz").unwrap(), "def456");
}

#[test]
fn parse_checksum_keeps_the_digest_as_written() {
    assert_eq!(parse_checksum("ABCdef  a.zip\n", "a.zip").unwrap(), "ABCdef");
    assert_eq!(parse_checksum("d\u{e9}f  a.zip\n", "a.zip").unwrap(), "d\u{e9}f");
}

#[test]
fn release_info_builds_urls() {
    let platform = Platform {
        target: "aarch64-apple-darwin",
        archive_ext: ".tar.gz",
    };
    let info = release_info("v0.2.0", &platform);
    assert_eq!(
        info.asset_name,
        "centy-daemon-v0.2.0-aarch64-apple-darwin.tar.gz"
    );
    assert_eq!(
        info.asset_url,
        "https://github.com/centy-io/centy-daemon/releases/download/v0.2.0/centy-daemon-v0.2.0-aarch64-apple-darwin.tar.gz"
    );
    assert_eq!(
        info.checksums_url,
        "https://github.com/centy-io/centy-daemon/releases/download/v0.2.0/checksums-sha256.txt"
    );
    assert_eq!(info.tag, "v0.2.0");
}

#[test]
fn release_info_tag_without_v_prefix() {
    let platform = Platform {
        target: "x86_64-unknown-linux-gnu",
        archive_ext: ".tar.gz",
    };
    let info = release_info("1.0.0", &platform);
    assert_eq!(
        info.asset_name,
        "centy-daemon-1.0.0-x86_64-unknown-linux-gnu.tar.gz"
    );
    assert_eq!(
        info.asset_url,
        "https://github.com/centy-io/centy-daemon/releases/download/1.0.0/centy-daemon-1.0.0-x86_64-unknown-linux-gnu.tar.gz"
    );
}

#[test]
fn release_info_tag_with_v_prefix_preserves_v_in_asset() {
    let platform = Platform {
        target: "x86_64-unknown-linux-gnu",
        archive_ext: ".tar.gz",
    };
    let info = release_info("v1.0.0", &platform);
    assert_eq!(
        info.asset_name,
        "centy-daemon-v1.0.0-x86_64-unknown-linux-gnu.tar.gz"
    );
    assert_eq!(
        info.asset_url,
        "https://github.com/centy-io/centy-daemon/releases/download/v1.0.0/centy-daemon-v1.0.0-x86_64-unknown-linux-gnu.tar.gz"
    );
}

#[test]
fn release_info_windows_zip() {
    let platform = Platform {
        target: "x86_64-pc-windows-msvc",
        archive_ext: ".zip",
    };
    let info = release_info("v0.3.0", &platform);
    assert_eq!(
        info.asset_name,
        "centy-daemon-v0.3.0-x86_64-pc-windows-msvc.zip"
    );
}

#[test]
fn resolve_version_with_v_prefix() {
    let tag = pinned(resolve_version(Some("v1.0.0")));
    assert_eq!(tag, "v1.0.0");
}

#[test]
fn resolve_version_without_v_prefix() {
    let tag = pinned(resolve_version(Some("1.0.0")));
    assert_eq!(tag, "v1.0.0");
}

#[test]
fn resolve_version_none_fetches_latest() {
    let base = "http://127.0.0.1:1234";
    match resolve_version_from(None, base) {
        VersionPlan::Latest(url) => {
            assert_eq!(url, "http://127.0.0.1:1234/repos/centy-io/centy-daemon/releases")
        }
        VersionPlan::Pinned(tag) => panic!("expected a request, got {tag}"),
    }
    let reply = listing_reply(200, r#"[{"tag_name": "v0.5.0"}, {"tag_name": "v0.4.0"}]"#);
    let tag = resolve_latest(&reply).unwrap();
    assert_eq!(tag, "v0.5.0");
}

#[test]
fn resolve_version_none_api_error() {
    let reply = listing_reply(403, "");
    let result = resolve_latest(&reply);
    assert!(result.is_err());
    assert!(result.unwrap_err().contains("GitHub API returned 403"));
}

#[test]
fn resolve_version_none_invalid_json() {
    let reply = listing_reply(200, "not-json");
    let result = resolve_latest(&reply);
    assert!(result.is_err());
    assert!(result.unwrap_err().contains("failed to parse releases JSON"));
}

#[test]
fn resolve_version_none_empty_releases() {
    let reply = listing_reply(200, "[]");
    let result = resolve_latest(&reply);
    assert!(result.is_err());
    assert!(result.unwrap_err().contains("no releases found"));
}

#[test]
fn resolve_version_none_missing_tag_name() {
    let reply = listing_reply(200, r#"[{"name": "Release 1"}]"#);
    let result = resolve_latest(&reply);
    assert!(result.is_err());
    assert!(result.unwrap_err().contains("no releases found"));
}

#[test]
fn resolve_version_from_with_version_ignores_api_base() {
    let tag = pinned(resolve_version_from(Some("2.0.0"), "http://invalid-url.example.com"));
    assert_eq!(tag, "v2.0.0");
}

#[test]
fn resolve_version_default_endpoint() {
    match resolve_version(None) {
        VersionPlan::Latest(url) => {
            assert_eq!(url, "https://api.github.com/repos/centy-io/centy-daemon/releases")
        }
        VersionPlan::Pinned(tag) => panic!("expected a request, got {tag}"),
    }
}

#[test]
fn resolve_version_edge_cases() {
    assert_eq!(pinned(resolve_version(Some(""))), "v");
    assert_eq!(pinned(resolve_version(Some("v"))), "v");
    assert_eq!(pinned(resolve_version(Some("V1"))), "vV1");
    assert_eq!(pinned(resolve_version(Some("version"))), "version");
}

#[test]
fn resolve_latest_takes_first_entry_even_if_prerelease() {
    let body = r#"[{"tag_name": "v0.6.0-rc.1", "prerelease": true}, {"tag_name": "v0.5.0"}]"#;
    assert_eq!(resolve_latest(&listing_reply(200, body)).unwrap(), "v0.6.0-rc.1");
}

#[test]
fn resolve_latest_first_entry_decides() {
    let body = r#"[{"name": "untagged"}, {"tag_name": "v0.5.0"}]"#;
    assert_eq!(resolve_latest(&listing_reply(200, body)).unwrap_err(), "no releases found");
    let body = r#"[{"tag_name": 7}, {"tag_name": "v0.5.0"}]"#;
    assert_eq!(resolve_latest(&listing_reply(200, body)).unwrap_err(), "no releases found");
    let body = r#"{"tag_name": "v0.5.0"}"#;
    assert_eq!(resolve_latest(&listing_reply(200, body)).unwrap_err(), "no releases found");
}

#[test]
fn resolve_latest_status_boundaries() {
    let body = r#"[{"tag_name": "v1.2.3"}]"#;
    assert_eq!(resolve_latest(&listing_reply(200, body)).unwrap(), "v1.2.3");
    assert_eq!(resolve_latest(&listing_reply(299, body)).unwrap(), "v1.2.3");
    assert_eq!(resolve_latest(&listing_reply(199, body)).unwrap_err(), "GitHub API returned 199");
    assert_eq!(resolve_latest(&listing_reply(300, body)).unwrap_err(), "GitHub API returned 300");
    assert_eq!(resolve_latest(&listing_reply(500, body)).unwrap_err(), "GitHub API returned 500");
}

#[test]
fn resolve_latest_transport_failures() {
    let reply = HttpReply::Failed("connection refused".to_string());
    assert_eq!(
        resolve_latest(&reply).unwrap_err(),
        "failed to fetch releases: connection refused"
    );
    let reply = HttpReply::Answered { status: 200, body: Err("timed out".to_string()) };
    assert_eq!(
        resolve_latest(&reply).unwrap_err(),
        "failed to read response body: timed out"
    );
}

#[test]
fn latest_tag_on_plain_values() {
    let listing = Some(vec![Some("v0.5.0".to_string()), Some("v0.4.0".to_string())]);
    assert_eq!(latest_tag(&listing).unwrap(), "v0.5.0");
    assert_eq!(latest_tag(&Some(vec![])).unwrap_err(), "no releases found");
    assert_eq!(latest_tag(&Some(vec![None, Some("v1".to_string())])).unwrap_err(), "no releases found");
    assert_eq!(latest_tag(&None).unwrap_err(), "no releases found");
}

#[test]
fn request_headers() {
    assert_eq!(USER_AGENT, "centy-installer");
    assert_eq!(ACCEPT_LISTING, "application/vnd.github+json");
}
