//! Finding the daemon's executable in a release archive.
//!
//! The archive formats are decoded by the `flate2`, `tar` and `zip`
//! crates, which hand over the members of an archive one by one. Which
//! member is the executable, and how far an archive is read, is decided
//! here.

use vstd::prelude::*;
use crate::error::InstallerError;
use crate::text::{begins_with, chars_of, same_text};

verus! {

/// A member of an archive, as the archive reader hands it over.
pub struct ArchiveMember {
    /// The member's path, with `/` between its parts; `None` where the
    /// zip reader refuses the path as unsafe.
    pub path: Option<Vec<u8>>,
    /// The member's content.
    pub data: Vec<u8>,
}

impl View for ArchiveMember {
    type V = (Option<Seq<u8>>, Seq<u8>);

    open spec fn view(&self) -> (Option<Seq<u8>>, Seq<u8>) {
        (
            match self.path {
                Some(path) => Some(path@),
                None => None,
            },
            self.data@,
        )
    }
}

/// What an archive reader finds at one place of an archive: a member,
/// by its path and content, or `None` where it cannot read one.
pub type Found = Option<(Option<Seq<u8>>, Seq<u8>)>;

/// What a walk over the gzip-compressed tar archive `bytes` finds, place
/// by place, from its beginning to the end of the walk.
pub uninterp spec fn tar_gz_items(bytes: Seq<u8>) -> Seq<Found>;

/// What a tar archive that has not been read yet will give.
pub uninterp spec fn tar_items(archive: TarArchive<'_>) -> Seq<Found>;

/// Whether a tar archive stands at its beginning: nothing was read from
/// it yet.
pub uninterp spec fn tar_unread(archive: TarArchive<'_>) -> bool;

/// What a walk over a tar archive has yet to give.
pub uninterp spec fn tar_pending(entries: TarEntries<'_, '_>) -> Seq<Found>;

/// What the index of the zip archive `bytes` lists, file by file; `None`
/// if the archive cannot be opened.
pub uninterp spec fn zip_items(bytes: Seq<u8>) -> Option<Seq<Found>>;

/// What the index of an open zip archive lists, file by file.
pub uninterp spec fn zip_listed(archive: zip::ZipArchive<std::io::Cursor<&[u8]>>) -> Seq<Found>;

/// `std::io::Error`, carried from a reader to its text; nothing is
/// claimed of what it holds.
#[verifier::external_type_specification]
#[verifier::external_body]
pub struct ExIoError(std::io::Error);

/// `std::io::Cursor`, which lets the zip reader seek in the bytes.
#[verifier::external_type_specification]
#[verifier::external_body]
#[verifier::reject_recursive_types(T)]
pub struct ExCursor<T>(std::io::Cursor<T>);

/// A `tar::Archive` over a `flate2::read::GzDecoder`: a gzip-compressed
/// tar archive that is read as it is walked.
#[verifier::external_body]
pub struct TarArchive<'b> {
    inner: tar::Archive<flate2::read::GzDecoder<&'b [u8]>>,
}

/// A `tar::Entries`: a walk over a `TarArchive`, entry by entry.
#[verifier::external_body]
pub struct TarEntries<'a, 'b> {
    inner: tar::Entries<'a, flate2::read::GzDecoder<&'b [u8]>>,
}

/// `zip::ZipArchive`: an open zip archive, known by what its index
/// lists.
#[verifier::external_type_specification]
#[verifier::external_body]
#[verifier::reject_recursive_types(R)]
pub struct ExZipArchive<R>(zip::ZipArchive<R>);

/// `zip::result::ZipError`, carried from the reader to its text; nothing
/// is claimed of what it holds.
#[verifier::external_type_specification]
#[verifier::external_body]
pub struct ExZipError(zip::result::ZipError);

/// Wraps the bytes in `flate2::read::GzDecoder::new` and that in
/// `tar::Archive::new`, which begins at position 0. What the archive
/// will give is a function of the bytes.
#[verifier::external_body]
fn tar_gz_open<'b>(bytes: &'b [u8]) -> (archive: TarArchive<'b>)
    ensures
        tar_unread(archive),
        tar_items(archive) == tar_gz_items(bytes@),
{
    TarArchive { inner: tar::Archive::new(flate2::read::GzDecoder::new(bytes)) }
}

/// Calls `tar::Archive::entries`, which begins a walk over the archive.
/// It refuses only an archive whose position is not 0, so it succeeds on
/// one that has not been read from.
#[verifier::external_body]
fn tar_entries<'a, 'b>(archive: &'a mut TarArchive<'b>) -> (r: Result<
    TarEntries<'a, 'b>,
    std::io::Error,
>)
    ensures
        tar_unread(*old(archive)) ==> r is Ok,
        r is Ok ==> tar_pending(r->Ok_0) == tar_items(*old(archive)),
{
    Ok(TarEntries { inner: archive.inner.entries()? })
}

/// Calls `next` on a walk over a tar archive and hands out the entry that
/// it yields by its `path_bytes` and its content, read to the end. The
/// walk gives what was pending, place by place: a member, an error where
/// the place cannot be read, and nothing once nothing is pending.
#[verifier::external_body]
fn tar_next(entries: &mut TarEntries<'_, '_>) -> (r: Option<Result<ArchiveMember, std::io::Error>>)
    ensures
        match r {
            None => tar_pending(*old(entries)).len() == 0,
            Some(found) => tar_pending(*old(entries)).len() > 0 && tar_pending(*final(entries))
                == tar_pending(*old(entries)).drop_first() && match found {
                Ok(member) => tar_pending(*old(entries))[0] == Some(member@),
                Err(_) => tar_pending(*old(entries))[0] is None,
            },
        },
{
    entries.inner.next().map(
        |entry|
            {
                let mut entry = entry?;
                let path = Some(entry.path_bytes().into_owned());
                let mut data = Vec::new();
                std::io::Read::read_to_end(&mut entry, &mut data)?;
                Ok(ArchiveMember { path, data })
            },
    )
}

/// Calls `zip::ZipArchive::new`, which reads the archive's index. What
/// the index lists is a function of the bytes, and an error means that
/// the archive cannot be opened.
#[verifier::external_body]
fn zip_open(bytes: &[u8]) -> (r: Result<
    zip::ZipArchive<std::io::Cursor<&[u8]>>,
    zip::result::ZipError,
>)
    ensures
        match r {
            Ok(archive) => zip_items(bytes@) == Some(zip_listed(archive)),
            Err(_) => zip_items(bytes@) is None,
        },
{
    zip::ZipArchive::new(std::io::Cursor::new(bytes))
}

/// Calls `zip::ZipArchive::len`: the number of files in the index.
#[verifier::external_body]
fn zip_len(archive: &zip::ZipArchive<std::io::Cursor<&[u8]>>) -> (len: usize)
    ensures
        len == zip_listed(*archive).len(),
{
    archive.len()
}

/// Calls `zip::ZipArchive::by_index` and hands out the file by its
/// `enclosed_name` and its content, read to the end. The index stays as
/// it is. An error means that the file at this place cannot be read.
#[verifier::external_body]
fn zip_member(archive: &mut zip::ZipArchive<std::io::Cursor<&[u8]>>, index: usize) -> (r: Result<
    ArchiveMember,
    zip::result::ZipError,
>)
    ensures
        zip_listed(*final(archive)) == zip_listed(*old(archive)),
        index < zip_listed(*old(archive)).len() ==> match r {
            Ok(member) => zip_listed(*old(archive))[index as int] == Some(member@),
            Err(_) => zip_listed(*old(archive))[index as int] is None,
        },
{
    let mut file = archive.by_index(index)?;
    let path = file.enclosed_name().map(|p| p.into_os_string().into_encoded_bytes());
    let mut data = Vec::new();
    std::io::Read::read_to_end(&mut file, &mut data)?;
    Ok(ArchiveMember { path, data })
}

/// The text of a `std::io::Error`, as its `Display` gives it.
#[verifier::external_body]
fn io_error_text(error: &std::io::Error) -> String {
    error.to_string()
}

/// The text of a `zip::result::ZipError`, as its `Display` gives it.
#[verifier::external_body]
fn zip_error_text(error: &zip::result::ZipError) -> String {
    error.to_string()
}

/// Where the last part of `path` begins, looking at its first `end`
/// bytes: behind the last `/` among them, or at 0.
pub open spec fn base_start(path: Seq<u8>, end: int) -> int
    decreases end,
{
    if 0 < end <= path.len() && path[end - 1] != 0x2F {
        base_start(path, end - 1)
    } else {
        end
    }
}

/// The base name of `path`: what follows its last `/`, the whole path if
/// it holds none.
pub open spec fn base_name(path: Seq<u8>) -> Seq<u8> {
    path.subrange(base_start(path, path.len() as int), path.len() as int)
}

/// Whether the bytes spell `name`, character by character.
pub open spec fn spells(bytes: Seq<u8>, name: Seq<char>) -> bool {
    bytes.len() == name.len() && forall|i: int|
        0 <= i < bytes.len() ==> bytes[i] as u32 == name[i] as u32
}

/// Whether a member is the daemon's executable: its base name is
/// `centy-daemon`, or, where `exe` says so, `centy-daemon.exe`. A member
/// without a path is none.
pub open spec fn is_binary(member: (Option<Seq<u8>>, Seq<u8>), exe: bool) -> bool {
    match member.0 {
        Some(path) => spells(base_name(path), "centy-daemon"@) || (exe && spells(
            base_name(path),
            "centy-daemon.exe"@,
        )),
        None => false,
    }
}

/// Whether the search ends at a place: there the reader found the
/// executable, or could not read.
pub open spec fn ends_search(found: Found, exe: bool) -> bool {
    match found {
        Some(member) => is_binary(member, exe),
        None => true,
    }
}

/// Whether `at` is the first place among `items` where the search ends.
pub open spec fn is_first_end(items: Seq<Found>, exe: bool, at: int) -> bool {
    &&& 0 <= at < items.len()
    &&& ends_search(items[at], exe)
    &&& forall|j: int| 0 <= j < at ==> !ends_search(#[trigger] items[j], exe)
}

/// Whether the search ends anywhere among `items`.
pub open spec fn search_ends(items: Seq<Found>, exe: bool) -> bool {
    exists|at: int| 0 <= at < items.len() && ends_search(#[trigger] items[at], exe)
}

/// The base name is found by looking back from the end of the path for a
/// `/`: if the byte in front of `start` is one, or `start` is 0, and none
/// follows, the base name begins at `start`.
proof fn lemma_base_start(path: Seq<u8>, start: int, end: int)
    requires
        0 <= start <= end <= path.len(),
        start == 0 || path[start - 1] == 0x2F,
        forall|i: int| start <= i < end ==> path[i] != 0x2F,
    ensures
        base_start(path, end) == start,
    decreases end - start,
{
    if start < end {
        lemma_base_start(path, start, end - 1);
    }
}

/// Nesting does not matter: a name without `/` is the base name of every
/// path that ends in `/` and that name.
pub proof fn nested_path_keeps_base_name(dir: Seq<u8>, name: Seq<u8>)
    requires
        forall|i: int| 0 <= i < name.len() ==> name[i] != 0x2F,
    ensures
        base_name(dir + seq![0x2Fu8] + name) == name,
        base_name(name) == name,
{
    let path = dir + seq![0x2Fu8] + name;
    let start = dir.len() as int + 1;
    assert forall|i: int| start <= i < path.len() implies path[i] != 0x2F by {
        assert(path[i] == name[i - start]);
    }
    assert(path[start - 1] == 0x2F);
    lemma_base_start(path, start, path.len() as int);
    assert(path.subrange(start, path.len() as int) =~= name);
    lemma_base_start(name, 0, name.len() as int);
    assert(name.subrange(0, name.len() as int) =~= name);
}

/// Position does not matter: if every place in front of a member can be
/// read and holds no executable, and the member is the executable, the
/// search ends at that member, whatever follows it.
pub proof fn binary_is_found_at_any_position(
    before: Seq<Found>,
    member: (Option<Seq<u8>>, Seq<u8>),
    after: Seq<Found>,
    exe: bool,
)
    requires
        is_binary(member, exe),
        forall|j: int| 0 <= j < before.len() ==> !ends_search(#[trigger] before[j], exe),
    ensures
        is_first_end(before.push(Some(member)) + after, exe, before.len() as int),
{
    let items = before.push(Some(member)) + after;
    assert(items[before.len() as int] == Some(member));
    assert forall|j: int| 0 <= j < before.len() implies !ends_search(#[trigger] items[j], exe) by {
        assert(items[j] == before[j]);
    }
}

/// Nesting does not matter: a member named `centy-daemon` is the
/// executable in whatever directory it lies.
pub proof fn nested_binary_is_recognized(dir: Seq<u8>, name: Seq<u8>, data: Seq<u8>, exe: bool)
    requires
        spells(name, "centy-daemon"@),
    ensures
        is_binary((Some(dir + seq![0x2Fu8] + name), data), exe),
        is_binary((Some(name), data), exe),
{
    reveal_strlit("centy-daemon");
    assert forall|i: int| 0 <= i < name.len() implies name[i] != 0x2F by {
        assert(name[i] as u32 == "centy-daemon"@[i] as u32);
    }
    nested_path_keeps_base_name(dir, name);
}

fn spells_name(path: &Vec<u8>, start: usize, name: &Vec<char>) -> (same: bool)
    requires
        start <= path.len(),
    ensures
        same == spells(path@.subrange(start as int, path.len() as int), name@),
{
    if path.len() - start != name.len() {
        return false;
    }
    let ghost window = path@.subrange(start as int, path.len() as int);
    let mut i: usize = 0;
    while i < name.len()
        invariant
            start <= path.len(),
            path.len() - start == name.len(),
            i <= name.len(),
            window == path@.subrange(start as int, path.len() as int),
            forall|j: int| 0 <= j < i ==> window[j] as u32 == name@[j] as u32,
        decreases name.len() - i,
    {
        let byte: u8 = path[start + i];
        let letter: char = name[i];
        assert(window[i as int] == byte);
        if byte as u32 != letter as u32 {
            return false;
        }
        i += 1;
    }
    true
}

/// Whether a member is the daemon's executable.
pub fn member_is_binary(member: &ArchiveMember, exe: bool) -> (found: bool)
    ensures
        found == is_binary(member@, exe),
{
    match &member.path {
        None => false,
        Some(path) => {
            let mut start: usize = path.len();
            while start > 0 && path[start - 1] != 0x2F
                invariant
                    start <= path.len(),
                    base_start(path@, path.len() as int) == base_start(path@, start as int),
                decreases start,
            {
                start -= 1;
            }
            let plain = chars_of("centy-daemon");
            if spells_name(path, start, &plain) {
                return true;
            }
            if exe {
                let suffixed = chars_of("centy-daemon.exe");
                spells_name(path, start, &suffixed)
            } else {
                false
            }
        },
    }
}

/// The message for a tar archive with a place that cannot be read.
pub open spec fn tar_unreadable() -> Seq<char> {
    "failed to read tar entry: "@
}

/// The message for a zip archive that cannot be opened.
pub open spec fn zip_unopenable() -> Seq<char> {
    "failed to open zip archive: "@
}

/// The message for a zip archive with a file that cannot be read.
pub open spec fn zip_unreadable() -> Seq<char> {
    "failed to read zip entry: "@
}

/// The outcome of a search through what an archive reader finds, place by
/// place, in order: the content of the first executable, if every place
/// in front of it can be read; an error that begins with `unreadable` if
/// a place cannot be read before an executable is found; the error
/// `missing` if all places can be read and none holds the executable.
pub open spec fn searched(
    items: Seq<Found>,
    exe: bool,
    unreadable: Seq<char>,
    missing: Seq<char>,
    r: Result<Vec<u8>, String>,
) -> bool {
    if search_ends(items, exe) {
        exists|at: int| #[trigger]
            is_first_end(items, exe, at) && match items[at] {
                Some(member) => r is Ok && r->Ok_0@ == member.1,
                None => r is Err && begins_with(r->Err_0@, unreadable),
            }
    } else {
        r is Err && r->Err_0@ == missing
    }
}

/// What extraction from the gzip-compressed tar archive `bytes` gives:
/// the outcome of the search for `centy-daemon` through what the reader
/// finds.
pub open spec fn tar_gz_extracted(bytes: Seq<u8>, r: Result<Vec<u8>, String>) -> bool {
    searched(
        tar_gz_items(bytes),
        false,
        tar_unreadable(),
        "centy-daemon binary not found in tar.gz archive"@,
        r,
    )
}

/// What extraction from the zip archive `bytes` gives: an error if the
/// archive cannot be opened, else the outcome of the search for
/// `centy-daemon` or `centy-daemon.exe` through what its index lists.
pub open spec fn zip_extracted(bytes: Seq<u8>, r: Result<Vec<u8>, String>) -> bool {
    match zip_items(bytes) {
        None => r is Err && begins_with(r->Err_0@, zip_unopenable()),
        Some(items) => searched(
            items,
            true,
            zip_unreadable(),
            "centy-daemon binary not found in zip archive"@,
            r,
        ),
    }
}

/// Extracts the `centy-daemon` executable from a gzip-compressed tar
/// archive: the content of the first entry, in archive order, whose base
/// name is `centy-daemon`. The archive is read only as far as that entry.
pub fn extract_tar_gz(archive_bytes: &[u8]) -> (r: Result<Vec<u8>, String>)
    ensures
        tar_gz_extracted(archive_bytes@, r),
{
    let mut archive = tar_gz_open(archive_bytes);
    let ghost items = tar_gz_items(archive_bytes@);
    let mut entries = match tar_entries(&mut archive) {
        Ok(entries) => entries,
        Err(error) => {
            let cause = io_error_text(&error);
            let mut message = String::from_str("failed to read tar entries: ");
            message.append(cause.as_str());
            return Err(message);
        },
    };
    let ghost mut seen: int = 0;
    loop
        invariant
            0 <= seen <= items.len(),
            items == tar_gz_items(archive_bytes@),
            tar_pending(entries) == items.subrange(seen, items.len() as int),
            forall|j: int| 0 <= j < seen ==> !ends_search(#[trigger] items[j], false),
        decreases items.len() - seen,
    {
        let ghost pending = tar_pending(entries);
        match tar_next(&mut entries) {
            None => {
                assert(seen == items.len());
                return Err(String::from_str("centy-daemon binary not found in tar.gz archive"));
            },
            Some(Err(error)) => {
                let cause = io_error_text(&error);
                let mut message = String::from_str("failed to read tar entry: ");
                message.append(cause.as_str());
                assert(message@.subrange(0, tar_unreadable().len() as int) =~= tar_unreadable());
                assert(items[seen] == pending[0]);
                assert(is_first_end(items, false, seen));
                return Err(message);
            },
            Some(Ok(member)) => {
                assert(items[seen] == pending[0]);
                if member_is_binary(&member, false) {
                    assert(is_first_end(items, false, seen));
                    return Ok(member.data);
                }
                assert(pending.drop_first() =~= items.subrange(seen + 1, items.len() as int));
                proof {
                    seen = seen + 1;
                }
            },
        }
    }
}

/// Extracts the `centy-daemon` executable from a zip archive: the content
/// of the first file, in index order, whose base name is `centy-daemon`
/// or `centy-daemon.exe`. Files behind that one are not read.
pub fn extract_zip(archive_bytes: &[u8]) -> (r: Result<Vec<u8>, String>)
    ensures
        zip_extracted(archive_bytes@, r),
{
    let mut archive = match zip_open(archive_bytes) {
        Ok(archive) => archive,
        Err(error) => {
            let cause = zip_error_text(&error);
            let mut message = String::from_str("failed to open zip archive: ");
            message.append(cause.as_str());
            assert(message@.subrange(0, zip_unopenable().len() as int) =~= zip_unopenable());
            return Err(message);
        },
    };
    let ghost items = zip_listed(archive);
    let len = zip_len(&archive);
    let mut at: usize = 0;
    while at < len
        invariant
            at <= len,
            len == items.len(),
            zip_listed(archive) == items,
            zip_items(archive_bytes@) == Some(items),
            forall|j: int| 0 <= j < at ==> !ends_search(#[trigger] items[j], true),
        decreases len - at,
    {
        match zip_member(&mut archive, at) {
            Err(error) => {
                let cause = zip_error_text(&error);
                let mut message = String::from_str("failed to read zip entry: ");
                message.append(cause.as_str());
                assert(message@.subrange(0, zip_unreadable().len() as int) =~= zip_unreadable());
                assert(is_first_end(items, true, at as int));
                return Err(message);
            },
            Ok(member) => {
                if member_is_binary(&member, true) {
                    assert(is_first_end(items, true, at as int));
                    return Ok(member.data);
                }
            },
        }
        at += 1;
    }
    Err(String::from_str("centy-daemon binary not found in zip archive"))
}

/// The message for an archive extension that is neither of the two.
pub open spec fn unsupported_format(ext: Seq<char>) -> Seq<char> {
    "unsupported archive format: "@ + ext
}

/// What extraction gives for an archive of the format that `ext` names.
pub open spec fn format_extracted(bytes: Seq<u8>, ext: Seq<char>, r: Result<Vec<u8>, String>) -> bool {
    if ext == ".tar.gz"@ {
        tar_gz_extracted(bytes, r)
    } else if ext == ".zip"@ {
        zip_extracted(bytes, r)
    } else {
        r is Err && r->Err_0@ == unsupported_format(ext)
    }
}

/// Extracts the executable from a release archive of the format that
/// `archive_ext` names: `.tar.gz` or `.zip`. Any other extension is
/// refused before the archive is looked at. Every failure is an error of
/// the extraction stage.
pub fn extract_binary(archive_bytes: &[u8], archive_ext: &str) -> (r: Result<
    Vec<u8>,
    InstallerError,
>)
    ensures
        match r {
            Ok(data) => format_extracted(
                archive_bytes@,
                archive_ext@,
                Ok::<Vec<u8>, String>(data),
            ),
            Err(InstallerError::Extraction(cause)) => format_extracted(
                archive_bytes@,
                archive_ext@,
                Err::<Vec<u8>, String>(cause),
            ),
            Err(_) => false,
        },
{
    let outcome = if same_text(archive_ext, ".tar.gz") {
        extract_tar_gz(archive_bytes)
    } else if same_text(archive_ext, ".zip") {
        extract_zip(archive_bytes)
    } else {
        let mut message = String::from_str("unsupported archive format: ");
        message.append(archive_ext);
        Err(message)
    };
    match outcome {
        Ok(data) => Ok(data),
        Err(cause) => Err(InstallerError::Extraction(cause)),
    }
}

} // verus!
