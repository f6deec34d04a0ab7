//! Release tags, release locations and the checksum manifest.

use vstd::prelude::*;
use crate::platform::Platform;
use crate::text::{
    begins_with, chars_of, decimal, decimal_string, is_space, lemma_line_end_bounds,
    lemma_skip_field_bounds, lemma_skip_spaces_bounds, line_end, scan_field, scan_line,
    scan_spaces, skip_field, skip_spaces, window_is,
};

verus! {

/// Where a release's artifact and checksum manifest are found.
pub struct ReleaseInfo {
    /// The release tag, as it was resolved.
    pub tag: String,
    /// The address of the archive.
    pub asset_url: String,
    /// The address of the checksum manifest.
    pub checksums_url: String,
    /// The archive's file name, by which the manifest lists it.
    pub asset_name: String,
}

/// The archive's file name: product, tag, target triple and extension.
pub open spec fn asset_name_of(tag: Seq<char>, target: Seq<char>, ext: Seq<char>) -> Seq<char> {
    "centy-daemon-"@ + tag + "-"@ + target + ext
}

/// The directory that holds the files of the release `tag`.
pub open spec fn release_base(tag: Seq<char>) -> Seq<char> {
    "https://github.com/"@ + "centy-io/centy-daemon"@ + "/releases/download/"@ + tag
}

/// The address of the file `name` of the release `tag`.
pub open spec fn release_file_url(tag: Seq<char>, name: Seq<char>) -> Seq<char> {
    release_base(tag) + "/"@ + name
}

/// Builds the locations of a release for a platform. The tag is used as it
/// is given, `v` prefix included, in the addresses and in the file name.
pub fn release_info(tag: &str, platform: &Platform) -> (info: ReleaseInfo)
    ensures
        info.tag@ == tag@,
        info.asset_name@ == asset_name_of(tag@, platform.target@, platform.archive_ext@),
        info.asset_url@ == release_file_url(tag@, info.asset_name@),
        info.checksums_url@ == release_file_url(tag@, "checksums-sha256.txt"@),
{
    let mut asset_name = String::from_str("centy-daemon-");
    asset_name.append(tag);
    asset_name.append("-");
    asset_name.append(platform.target);
    asset_name.append(platform.archive_ext);

    let mut base = String::from_str("https://github.com/");
    base.append("centy-io/centy-daemon");
    base.append("/releases/download/");
    base.append(tag);

    let mut asset_url = base.clone();
    asset_url.append("/");
    asset_url.append(asset_name.as_str());

    let mut checksums_url = base;
    checksums_url.append("/");
    checksums_url.append("checksums-sha256.txt");

    ReleaseInfo { tag: String::from_str(tag), asset_url, checksums_url, asset_name }
}

/// What a request to a server gave.
pub enum HttpReply {
    /// No answer came: the cause, in words.
    Failed(String),
    /// The server answered with a status code and a body; the body is
    /// its text, or the reason why it could not be read.
    Answered { status: u16, body: Result<String, String> },
}

/// What is to be done to know the release tag.
pub enum VersionPlan {
    /// The tag is known: nothing is to be fetched.
    Pinned(String),
    /// The tag is that of the newest release: the listing at this address
    /// is to be fetched and handed to [`resolve_latest`].
    Latest(String),
}

/// The product name that requests carry in their `User-Agent` header.
pub const USER_AGENT: &'static str = "centy-installer";

/// The media type that the listing request asks for in its `Accept`
/// header.
pub const ACCEPT_LISTING: &'static str = "application/vnd.github+json";

/// The tag for a version as the user wrote it: with a `v` in front,
/// unless it begins with one.
pub open spec fn normalized_tag(version: Seq<char>) -> Seq<char> {
    if version.len() > 0 && version[0] == 'v' {
        version
    } else {
        seq!['v'] + version
    }
}

/// A tag always begins with `v`, normalizing a tag changes nothing, and
/// a version gives the same tag whether or not it is written with its
/// `v`.
pub proof fn normalized_tag_has_one_prefix(version: Seq<char>)
    ensures
        normalized_tag(version).len() > 0,
        normalized_tag(version)[0] == 'v',
        normalized_tag(normalized_tag(version)) == normalized_tag(version),
        version.len() == 0 || version[0] != 'v' ==> normalized_tag(seq!['v'] + version)
            == normalized_tag(version),
{
    let prefixed = seq!['v'] + version;
    assert(prefixed[0] == 'v');
}

/// The address of the release listing under `api_base`.
pub open spec fn listing_url(api_base: Seq<char>) -> Seq<char> {
    api_base + "/repos/"@ + "centy-io/centy-daemon"@ + "/releases"@
}

/// Whether an HTTP status code reports success.
pub open spec fn is_success(status: u16) -> bool {
    200 <= status <= 299
}

/// The message for a listing request that the server refused.
pub open spec fn api_refused(status: u16) -> Seq<char> {
    "GitHub API returned "@ + decimal(status as nat)
}

/// For a document that is a JSON array, the string that each element
/// holds under `key`, in order, `None` for an element that holds none;
/// `Some(None)` for a JSON document that is no array; `None` for a text
/// that is no JSON document.
pub uninterp spec fn json_fields(text: Seq<char>, key: Seq<char>) -> Option<
    Option<Seq<Option<Seq<char>>>>,
>;

/// `serde_json::Error`, carried from the reader to its text; nothing is
/// claimed of what it holds.
#[verifier::external_type_specification]
#[verifier::external_body]
pub struct ExJsonError(serde_json::Error);

/// The strings of a release listing, as sequences of characters.
pub open spec fn fields_view(found: Option<Vec<Option<String>>>) -> Option<
    Seq<Option<Seq<char>>>,
> {
    match found {
        Some(items) => Some(
            Seq::new(
                items.len() as nat,
                |i: int|
                    match items[i] {
                        Some(text) => Some(text@),
                        None => None,
                    },
            ),
        ),
        None => None,
    }
}

/// Parses `text` with `serde_json::from_str` and hands out, if the
/// document is an array (`Value::as_array`), the string (`Value::as_str`)
/// that each element holds under `key` (`value[key]`). The contract only
/// names the outcome: it is a function of the text and the key, and an
/// error means that the text is no JSON document.
#[verifier::external_body]
fn read_json_fields(text: &str, key: &str) -> (r: Result<
    Option<Vec<Option<String>>>,
    serde_json::Error,
>)
    ensures
        match r {
            Ok(found) => json_fields(text@, key@) == Some(fields_view(found)),
            Err(_) => json_fields(text@, key@) is None,
        },
{
    let document: serde_json::Value = serde_json::from_str(text)?;
    Ok(
        document.as_array().map(
            |items| items.iter().map(|item| item[key].as_str().map(str::to_owned)).collect(),
        ),
    )
}

/// The text of a `serde_json::Error`, as its `Display` gives it.
#[verifier::external_body]
fn json_error_text(error: &serde_json::Error) -> String {
    error.to_string()
}

/// The tag of the newest release in a listing: that of the first element,
/// whether or not it is a pre-release. There is none if the document is
/// no array, if the array is empty, or if its first element holds no tag.
pub open spec fn first_tag(listing: Option<Seq<Option<Seq<char>>>>) -> Option<Seq<char>> {
    match listing {
        Some(tags) => if tags.len() > 0 {
            tags[0]
        } else {
            None
        },
        None => None,
    }
}

/// Decides what is to be done to know the release tag. A version that the
/// user gave is normalized and needs no request; without one, the listing
/// under `api_base` is to be fetched.
pub fn resolve_version_from(version: Option<&str>, api_base: &str) -> (plan: VersionPlan)
    ensures
        match version {
            Some(wanted) => plan matches VersionPlan::Pinned(tag) && tag@ == normalized_tag(
                wanted@,
            ),
            None => plan matches VersionPlan::Latest(url) && url@ == listing_url(api_base@),
        },
{
    match version {
        Some(wanted) => {
            let letters = chars_of(wanted);
            if letters.len() > 0 && letters[0] == 'v' {
                VersionPlan::Pinned(String::from_str(wanted))
            } else {
                proof {
                    reveal_strlit("v");
                }
                let mut tag = String::from_str("v");
                tag.append(wanted);
                assert(tag@ =~= seq!['v'] + wanted@);
                VersionPlan::Pinned(tag)
            }
        },
        None => {
            let mut url = String::from_str(api_base);
            url.append("/repos/");
            url.append("centy-io/centy-daemon");
            url.append("/releases");
            VersionPlan::Latest(url)
        },
    }
}

/// Decides what is to be done to know the release tag, with the public
/// listing endpoint.
pub fn resolve_version(version: Option<&str>) -> (plan: VersionPlan)
    ensures
        match version {
            Some(wanted) => plan matches VersionPlan::Pinned(tag) && tag@ == normalized_tag(
                wanted@,
            ),
            None => plan matches VersionPlan::Latest(url) && url@ == listing_url(
                "https://api.github.com"@,
            ),
        },
{
    resolve_version_from(version, "https://api.github.com")
}

/// Picks the newest release from a parsed listing.
pub fn latest_tag(listing: &Option<Vec<Option<String>>>) -> (r: Result<String, String>)
    ensures
        match first_tag(fields_view(*listing)) {
            Some(tag) => r is Ok && r->Ok_0@ == tag,
            None => r is Err && r->Err_0@ == "no releases found"@,
        },
{
    match listing {
        Some(tags) => {
            if tags.len() > 0 {
                match &tags[0] {
                    Some(tag) => {
                        return Ok(tag.clone());
                    },
                    None => {},
                }
            }
        },
        None => {},
    }
    Err(String::from_str("no releases found"))
}

/// What the answer to the listing request means, from what the JSON
/// reader made of its body: `parsed` is `json_fields` of the body and the
/// key `tag_name`.
pub open spec fn latest_resolved(
    reply: HttpReply,
    parsed: Option<Option<Seq<Option<Seq<char>>>>>,
    r: Result<String, String>,
) -> bool {
    match reply {
        HttpReply::Failed(cause) => r is Err && r->Err_0@ == "failed to fetch releases: "@
            + cause@,
        HttpReply::Answered { status, body } => if !is_success(status) {
            r is Err && r->Err_0@ == api_refused(status)
        } else {
            match body {
                Err(cause) => r is Err && r->Err_0@ == "failed to read response body: "@
                    + cause@,
                Ok(text) => match parsed {
                    None => r is Err && begins_with(
                        r->Err_0@,
                        "failed to parse releases JSON: "@,
                    ),
                    Some(listing) => match first_tag(listing) {
                        Some(tag) => r is Ok && r->Ok_0@ == tag,
                        None => r is Err && r->Err_0@ == "no releases found"@,
                    },
                },
            }
        },
    }
}

/// Resolves the newest release's tag from the answer to the listing
/// request. A status other than success fails with that status; a body
/// that is no JSON document fails as unparsable; a listing without a
/// first tag fails with "no releases found".
pub fn resolve_latest(reply: &HttpReply) -> (r: Result<String, String>)
    ensures
        latest_resolved(
            *reply,
            match *reply {
                HttpReply::Answered { status, body: Ok(text) } => json_fields(
                    text@,
                    "tag_name"@,
                ),
                _ => None,
            },
            r,
        ),
{
    match reply {
        HttpReply::Failed(cause) => {
            let mut message = String::from_str("failed to fetch releases: ");
            message.append(cause.as_str());
            Err(message)
        },
        HttpReply::Answered { status, body } => {
            if *status < 200 || *status > 299 {
                let mut message = String::from_str("GitHub API returned ");
                let number = decimal_string(*status as u32);
                message.append(number.as_str());
                return Err(message);
            }
            match body {
                Err(cause) => {
                    let mut message = String::from_str("failed to read response body: ");
                    message.append(cause.as_str());
                    Err(message)
                },
                Ok(text) => match read_json_fields(text.as_str(), "tag_name") {
                    Err(error) => {
                        let cause = json_error_text(&error);
                        let mut message = String::from_str("failed to parse releases JSON: ");
                        message.append(cause.as_str());
                        assert(message@.subrange(
                            0,
                            "failed to parse releases JSON: "@.len() as int,
                        ) =~= "failed to parse releases JSON: "@);
                        Err(message)
                    },
                    Ok(listing) => latest_tag(&listing),
                },
            }
        },
    }
}

/// The manifest entry that the characters of `s` from `from` up to `to`
/// spell: a digest and a file name, if these characters are exactly two
/// fields separated by white space. White space around the fields is
/// allowed. Any other line is no entry.
pub open spec fn entry_at(s: Seq<char>, from: int, to: int) -> Option<(Seq<char>, Seq<char>)> {
    let digest_start = skip_spaces(s, from, to);
    let digest_end = skip_field(s, digest_start, to);
    let name_start = skip_spaces(s, digest_end, to);
    let name_end = skip_field(s, name_start, to);
    let rest = skip_spaces(s, name_end, to);
    if digest_start < digest_end && name_start < name_end && rest == to {
        Some((s.subrange(digest_start, digest_end), s.subrange(name_start, name_end)))
    } else {
        None
    }
}

/// The digest that the lines of `s` from position `from` on give for the
/// file `name`: that of the first entry with exactly this file name.
pub open spec fn digest_from(s: Seq<char>, name: Seq<char>, from: int) -> Option<Seq<char>>
    decreases s.len() + 1 - from,
{
    if 0 <= from < s.len() {
        let end = line_end(s, from);
        proof {
            lemma_line_end_bounds(s, from);
        }
        match entry_at(s, from, end) {
            Some(entry) => if entry.1 == name {
                Some(entry.0)
            } else {
                digest_from(s, name, end + 1)
            },
            None => digest_from(s, name, end + 1),
        }
    } else {
        None
    }
}

/// The digest that the manifest `text` declares for the file `name`.
pub open spec fn manifest_digest(text: Seq<char>, name: Seq<char>) -> Option<Seq<char>> {
    digest_from(text, name, 0)
}

/// The message that reports a file that the manifest does not list.
pub open spec fn checksum_not_found(name: Seq<char>) -> Seq<char> {
    "checksum not found for "@ + name + " in checksums file"@
}

proof fn lemma_space_run(s: Seq<char>, from: int, mid: int, to: int)
    requires
        0 <= from <= mid <= to <= s.len(),
        forall|i: int| from <= i < mid ==> is_space(s[i]),
        mid == to || !is_space(s[mid]),
    ensures
        skip_spaces(s, from, to) == mid,
    decreases mid - from,
{
    if from < mid {
        lemma_space_run(s, from + 1, mid, to);
    }
}

proof fn lemma_field_run(s: Seq<char>, from: int, mid: int, to: int)
    requires
        0 <= from <= mid <= to <= s.len(),
        forall|i: int| from <= i < mid ==> !is_space(s[i]),
        mid == to || is_space(s[mid]),
    ensures
        skip_field(s, from, to) == mid,
    decreases mid - from,
{
    if from < mid {
        lemma_field_run(s, from + 1, mid, to);
    }
}

proof fn lemma_spaces_moved(a: Seq<char>, b: Seq<char>, by: int, from: int, to: int)
    requires
        0 <= from <= to <= b.len(),
        0 <= by,
        to + by <= a.len(),
        forall|i: int| from <= i < to ==> a[i + by] == b[i],
    ensures
        skip_spaces(a, from + by, to + by) == skip_spaces(b, from, to) + by,
    decreases to - from,
{
    if from < to {
        assert(a[from + by] == b[from]);
        if is_space(b[from]) {
            lemma_spaces_moved(a, b, by, from + 1, to);
        }
    }
}

proof fn lemma_field_moved(a: Seq<char>, b: Seq<char>, by: int, from: int, to: int)
    requires
        0 <= from <= to <= b.len(),
        0 <= by,
        to + by <= a.len(),
        forall|i: int| from <= i < to ==> a[i + by] == b[i],
    ensures
        skip_field(a, from + by, to + by) == skip_field(b, from, to) + by,
    decreases to - from,
{
    if from < to {
        assert(a[from + by] == b[from]);
        if !is_space(b[from]) {
            lemma_field_moved(a, b, by, from + 1, to);
        }
    }
}

proof fn lemma_entry_moved(a: Seq<char>, b: Seq<char>, by: int, from: int, to: int)
    requires
        0 <= from <= to <= b.len(),
        0 <= by,
        to + by <= a.len(),
        forall|i: int| from <= i < to ==> a[i + by] == b[i],
    ensures
        entry_at(a, from + by, to + by) == entry_at(b, from, to),
{
    let s1 = skip_spaces(b, from, to);
    lemma_skip_spaces_bounds(b, from, to);
    lemma_spaces_moved(a, b, by, from, to);
    let f1 = skip_field(b, s1, to);
    lemma_skip_field_bounds(b, s1, to);
    lemma_field_moved(a, b, by, s1, to);
    let s2 = skip_spaces(b, f1, to);
    lemma_skip_spaces_bounds(b, f1, to);
    lemma_spaces_moved(a, b, by, f1, to);
    let f2 = skip_field(b, s2, to);
    lemma_skip_field_bounds(b, s2, to);
    lemma_field_moved(a, b, by, s2, to);
    lemma_skip_spaces_bounds(b, f2, to);
    lemma_spaces_moved(a, b, by, f2, to);
    assert(a.subrange(s1 + by, f1 + by) =~= b.subrange(s1, f1));
    assert(a.subrange(s2 + by, f2 + by) =~= b.subrange(s2, f2));
}

proof fn lemma_line_end_at(s: Seq<char>, from: int, at: int)
    requires
        0 <= from <= at <= s.len(),
        forall|i: int| from <= i < at ==> s[i] != '\n',
        at == s.len() || s[at] == '\n',
    ensures
        line_end(s, from) == at,
    decreases at - from,
{
    if from < at {
        lemma_line_end_at(s, from + 1, at);
    }
}

proof fn lemma_digest_moved(a: Seq<char>, b: Seq<char>, name: Seq<char>, by: int, from: int)
    requires
        0 <= from,
        0 <= by,
        a.len() == b.len() + by,
        forall|i: int| 0 <= i < b.len() ==> a[i + by] == b[i],
    ensures
        digest_from(a, name, from + by) == digest_from(b, name, from),
    decreases b.len() + 1 - from,
{
    if from < b.len() {
        let end = line_end(b, from);
        lemma_line_end_bounds(b, from);
        assert forall|i: int| from + by <= i < end + by implies a[i] != '\n' by {
            assert(a[(i - by) + by] == b[i - by]);
        }
        if end < b.len() {
            assert(a[end + by] == b[end]);
        }
        lemma_line_end_at(a, from + by, end + by);
        lemma_entry_moved(a, b, by, from, end);
        lemma_digest_moved(a, b, name, by, end + 1);
    }
}

/// The manifest is read line by line, and the first entry for the file
/// decides: a first line that is an entry for the file gives its digest,
/// whatever follows; any other first line, blank ones included, is
/// passed over, and the rest of the manifest decides.
pub proof fn manifest_is_read_line_by_line(line: Seq<char>, rest: Seq<char>, name: Seq<char>)
    requires
        forall|i: int| 0 <= i < line.len() ==> line[i] != '\n',
    ensures
        manifest_digest(line + seq!['\n'] + rest, name) == match entry_at(
            line,
            0,
            line.len() as int,
        ) {
            Some(entry) => if entry.1 == name {
                Some(entry.0)
            } else {
                manifest_digest(rest, name)
            },
            None => manifest_digest(rest, name),
        },
        manifest_digest(Seq::<char>::empty(), name) is None,
{
    let text = line + seq!['\n'] + rest;
    let n = line.len() as int;
    assert forall|i: int| 0 <= i < n implies text[i] != '\n' by {
        assert(text[i] == line[i]);
    }
    assert(text[n] == '\n');
    lemma_line_end_at(text, 0, n);
    assert forall|i: int| 0 <= i < n implies text[i + 0] == line[i] by {}
    lemma_entry_moved(text, line, 0, 0, n);
    assert forall|i: int| 0 <= i < rest.len() implies text[i + (n + 1)] == rest[i] by {}
    lemma_digest_moved(text, rest, name, n + 1, 0);
}

/// A field of a manifest line: one character or more, none of them white
/// space.
pub open spec fn is_field(f: Seq<char>) -> bool {
    f.len() > 0 && forall|i: int| 0 <= i < f.len() ==> !is_space(#[trigger] f[i])
}

/// What separates the two fields of a manifest line: one white-space
/// character or more, none of them a line feed.
pub open spec fn is_gap(g: Seq<char>) -> bool {
    g.len() > 0 && forall|i: int|
        0 <= i < g.len() ==> is_space(#[trigger] g[i]) && g[i] != '\n'
}

/// A manifest of one line, made of a digest, a gap and a file name,
/// declares that digest for that file.
pub proof fn manifest_line_round_trip(digest: Seq<char>, gap: Seq<char>, name: Seq<char>)
    requires
        is_field(digest),
        is_gap(gap),
        is_field(name),
    ensures
        manifest_digest(digest + gap + name, name) == Some(digest),
{
    let s = digest + gap + name;
    let a = digest.len() as int;
    let b = a + gap.len();
    let n = s.len() as int;
    assert forall|i: int| 0 <= i < a implies !is_space(s[i]) by {
        assert(s[i] == digest[i]);
    }
    assert forall|i: int| a <= i < b implies is_space(s[i]) && s[i] != '\n' by {
        assert(s[i] == gap[i - a]);
    }
    assert forall|i: int| b <= i < n implies !is_space(s[i]) by {
        assert(s[i] == name[i - b]);
    }
    assert(is_space('\n'));
    lemma_line_end_at(s, 0, n);
    lemma_space_run(s, 0, 0, n);
    lemma_field_run(s, 0, a, n);
    lemma_space_run(s, a, b, n);
    lemma_field_run(s, b, n, n);
    lemma_space_run(s, n, n, n);
    assert(s.subrange(0, a) =~= digest);
    assert(s.subrange(b, n) =~= name);
    assert(entry_at(s, 0, n) == Some((digest, name)));
}

/// A manifest line with one space between digest and file name, and one
/// with two spaces, both declare that digest for that file.
pub proof fn manifest_line_single_or_double_space(digest: Seq<char>, name: Seq<char>)
    requires
        is_field(digest),
        is_field(name),
    ensures
        manifest_digest(digest + seq![' '] + name, name) == Some(digest),
        manifest_digest(digest + seq![' ', ' '] + name, name) == Some(digest),
{
    let one = seq![' '];
    let two = seq![' ', ' '];
    assert(is_space(' ') && ' ' != '\n');
    assert(is_gap(one)) by {
        assert forall|i: int| 0 <= i < one.len() implies is_space(#[trigger] one[i]) && one[i]
            != '\n' by {
            assert(one[i] == ' ');
        }
    }
    assert(is_gap(two)) by {
        assert forall|i: int| 0 <= i < two.len() implies is_space(#[trigger] two[i]) && two[i]
            != '\n' by {
            assert(two[i] == ' ');
        }
    }
    manifest_line_round_trip(digest, one, name);
    manifest_line_round_trip(digest, two, name);
}

/// Reads the checksum manifest `checksums_text` and returns the digest
/// that it declares for the file `asset_name`.
///
/// The manifest is read line by line. A line is an entry if it holds
/// exactly two fields separated by white space, the digest and the file
/// name; every other line is passed over. The first entry whose file name
/// is exactly `asset_name` gives the digest. If there is none, the error
/// names the file.
pub fn parse_checksum(checksums_text: &str, asset_name: &str) -> (r: Result<String, String>)
    ensures
        match manifest_digest(checksums_text@, asset_name@) {
            Some(digest) => r is Ok && r->Ok_0@ == digest,
            None => r is Err && r->Err_0@ == checksum_not_found(asset_name@),
        },
{
    let text = chars_of(checksums_text);
    let name = chars_of(asset_name);
    let mut from: usize = 0;
    while from < text.len()
        invariant
            text@ == checksums_text@,
            name@ == asset_name@,
            from <= text.len(),
            manifest_digest(text@, name@) == digest_from(text@, name@, from as int),
        decreases text.len() - from,
    {
        let end = scan_line(&text, from);
        let digest_start = scan_spaces(&text, from, end);
        let digest_end = scan_field(&text, digest_start, end);
        let name_start = scan_spaces(&text, digest_end, end);
        let name_end = scan_field(&text, name_start, end);
        let rest = scan_spaces(&text, name_end, end);
        if digest_start < digest_end && name_start < name_end && rest == end && window_is(
            &text,
            name_start,
            name_end,
            &name,
        ) {
            let digest = checksums_text.substring_char(digest_start, digest_end);
            return Ok(String::from_str(digest));
        }
        assert(digest_from(text@, name@, text@.len() as int + 1) == digest_from(
            text@,
            name@,
            text@.len() as int,
        ));
        from = if end < text.len() {
            end + 1
        } else {
            end
        };
    }
    let mut message = String::from_str("checksum not found for ");
    message.append(asset_name);
    message.append(" in checksums file");
    Err(message)
}

} // verus!
