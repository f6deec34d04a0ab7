//! Which release artifact fits a host: the target triple and the archive
//! format, from the operating system and the processor architecture.

use vstd::prelude::*;

verus! {

/// The release artifact that fits a host.
pub struct Platform {
    /// The target triple in the artifact's file name.
    pub target: &'static str,
    /// The archive's file extension: `.tar.gz` or `.zip`.
    pub archive_ext: &'static str,
}

/// The target triple of a supported host, `None` for any other host.
pub open spec fn target_triple(os: Seq<char>, arch: Seq<char>) -> Option<Seq<char>> {
    if os == "macos"@ && arch == "aarch64"@ {
        Some("aarch64-apple-darwin"@)
    } else if os == "macos"@ && arch == "x86_64"@ {
        Some("x86_64-apple-darwin"@)
    } else if os == "linux"@ && arch == "aarch64"@ {
        Some("aarch64-unknown-linux-gnu"@)
    } else if os == "linux"@ && arch == "x86_64"@ {
        Some("x86_64-unknown-linux-gnu"@)
    } else if os == "windows"@ && arch == "x86_64"@ {
        Some("x86_64-pc-windows-msvc"@)
    } else {
        None
    }
}

/// The archive extension that releases for `os` use: zip archives for
/// Windows, gzip-compressed tar archives for every other system.
pub open spec fn archive_ext_of(os: Seq<char>) -> Seq<char> {
    if os == "windows"@ {
        ".zip"@
    } else {
        ".tar.gz"@
    }
}

/// The message that reports an unsupported host.
pub open spec fn unsupported_platform(os: Seq<char>, arch: Seq<char>) -> Seq<char> {
    "unsupported platform: "@ + os + "-"@ + arch
}

/// Whether `ext` is one of the two archive extensions that releases use.
pub open spec fn is_archive_ext(ext: Seq<char>) -> bool {
    ext == ".tar.gz"@ || ext == ".zip"@
}

/// Resolves the release artifact for the host with operating system `os`
/// and architecture `arch`, both named as `std::env::consts` names them.
///
/// Every supported host gets a non-empty target triple and one of the two
/// archive extensions; every other host is refused with a message that
/// names the combination.
pub fn detect(os: &str, arch: &str) -> (r: Result<Platform, String>)
    ensures
        match target_triple(os@, arch@) {
            Some(triple) => r is Ok && r->Ok_0.target@ == triple && r->Ok_0.archive_ext@
                == archive_ext_of(os@),
            None => r is Err && r->Err_0@ == unsupported_platform(os@, arch@),
        },
        r is Ok ==> r->Ok_0.target@.len() > 0 && is_archive_ext(r->Ok_0.archive_ext@),
{
    let mac = crate::text::same_text(os, "macos");
    let linux = crate::text::same_text(os, "linux");
    let windows = crate::text::same_text(os, "windows");
    let arm = crate::text::same_text(arch, "aarch64");
    let intel = crate::text::same_text(arch, "x86_64");
    proof {
        reveal_strlit("aarch64-apple-darwin");
        reveal_strlit("x86_64-apple-darwin");
        reveal_strlit("aarch64-unknown-linux-gnu");
        reveal_strlit("x86_64-unknown-linux-gnu");
        reveal_strlit("x86_64-pc-windows-msvc");
    }
    let archive_ext = if windows {
        ".zip"
    } else {
        ".tar.gz"
    };
    if mac && arm {
        Ok(Platform { target: "aarch64-apple-darwin", archive_ext })
    } else if mac && intel {
        Ok(Platform { target: "x86_64-apple-darwin", archive_ext })
    } else if linux && arm {
        Ok(Platform { target: "aarch64-unknown-linux-gnu", archive_ext })
    } else if linux && intel {
        Ok(Platform { target: "x86_64-unknown-linux-gnu", archive_ext })
    } else if windows && intel {
        Ok(Platform { target: "x86_64-pc-windows-msvc", archive_ext })
    } else {
        let mut message = String::from_str("unsupported platform: ");
        message.append(os);
        message.append("-");
        message.append(arch);
        Err(message)
    }
}

} // verus!
