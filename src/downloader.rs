//! Where a release artifact is published: the release tag of a version, the
//! asset name of a platform, and the download URL made of the two.
use vstd::prelude::*;

use crate::error::InstallError;
use crate::platform::{Libc, Platform};
use crate::text::str_eq;
use crate::version::{version_text, Version, VersionParts};

verus! {

/// The release tag of a version. Major version 1 was tagged `cli/v<version>`;
/// every later major is tagged `@biomejs/biome@<version>`.
pub open spec fn tag_for(v: VersionParts) -> Seq<char> {
    if v.0 == 1 {
        "cli/v"@ + version_text(v)
    } else {
        "@biomejs/biome@"@ + version_text(v)
    }
}

/// The published asset for an operating system, architecture and C library,
/// or `None` when no asset is published for that combination.
pub open spec fn asset_for(os: Seq<char>, arch: Seq<char>, libc: Libc) -> Option<Seq<char>> {
    if os == "linux"@ && arch == "x86_64"@ {
        match libc {
            Libc::Glibc => Some("biome-linux-x64"@),
            Libc::Musl => Some("biome-linux-x64-musl"@),
        }
    } else if os == "linux"@ && arch == "aarch64"@ {
        match libc {
            Libc::Glibc => Some("biome-linux-arm64"@),
            Libc::Musl => Some("biome-linux-arm64-musl"@),
        }
    } else if os == "macos"@ && arch == "x86_64"@ {
        Some("biome-darwin-x64"@)
    } else if os == "macos"@ && arch == "aarch64"@ {
        Some("biome-darwin-arm64"@)
    } else if os == "windows"@ && arch == "x86_64"@ {
        Some("biome-win32-x64.exe"@)
    } else if os == "windows"@ && arch == "aarch64"@ {
        Some("biome-win32-arm64.exe"@)
    } else {
        None
    }
}

/// The download URL of an asset of a release.
pub open spec fn release_url(tag: Seq<char>, asset: Seq<char>) -> Seq<char> {
    "https://github.com/biomejs/biome/releases/download/"@ + tag + "/"@ + asset
}

/// Whether an HTTP status code reports success (the 2xx range).
pub open spec fn status_ok(status: u16) -> bool {
    200 <= status <= 299
}

/// Locates the release artifacts for one platform.
pub struct Downloader {
    pub platform: Platform,
}

impl Downloader {
    pub fn new(platform: Platform) -> (r: Self)
        ensures
            r.platform == platform,
    {
        Downloader { platform }
    }

    /// The release tag of `version`.
    pub fn get_git_tag(&self, version: &Version) -> (r: String)
        ensures
            r@ == tag_for(version@),
    {
        let mut r = if version.major == 1 {
            String::from_str("cli/v")
        } else {
            String::from_str("@biomejs/biome@")
        };
        let text = version.to_string();
        r.append(text.as_str());
        r
    }

    /// The name of the asset published for this platform; an unsupported
    /// platform is an error that names its operating system and architecture.
    pub fn get_asset_name(&self) -> (r: Result<String, InstallError>)
        ensures
            match r {
                Ok(a) => asset_for(self.platform.os@, self.platform.arch@, self.platform.libc)
                    == Some(a@),
                Err(InstallError::UnsupportedPlatform { os, arch }) => asset_for(
                    self.platform.os@,
                    self.platform.arch@,
                    self.platform.libc,
                ) is None && os@ == self.platform.os@ && arch@ == self.platform.arch@,
                Err(_) => false,
            },
    {
        let os = self.platform.os.as_str();
        let arch = self.platform.arch.as_str();
        let musl = match self.platform.libc {
            Libc::Musl => true,
            Libc::Glibc => false,
        };
        let linux = str_eq(os, "linux");
        let macos = str_eq(os, "macos");
        let windows = str_eq(os, "windows");
        let x64 = str_eq(arch, "x86_64");
        let arm64 = str_eq(arch, "aarch64");
        let asset = if linux && x64 {
            if musl {
                "biome-linux-x64-musl"
            } else {
                "biome-linux-x64"
            }
        } else if linux && arm64 {
            if musl {
                "biome-linux-arm64-musl"
            } else {
                "biome-linux-arm64"
            }
        } else if macos && x64 {
            "biome-darwin-x64"
        } else if macos && arm64 {
            "biome-darwin-arm64"
        } else if windows && x64 {
            "biome-win32-x64.exe"
        } else if windows && arm64 {
            "biome-win32-arm64.exe"
        } else {
            return Err(
                InstallError::UnsupportedPlatform {
                    os: String::from_str(os),
                    arch: String::from_str(arch),
                },
            );
        };
        Ok(String::from_str(asset))
    }

    /// The URL of the asset of `version` for this platform.
    pub fn download_url(&self, version: &Version) -> (r: Result<String, InstallError>)
        ensures
            match r {
                Ok(u) => asset_for(self.platform.os@, self.platform.arch@, self.platform.libc)
                    matches Some(a) && u@ == release_url(tag_for(version@), a),
                Err(InstallError::UnsupportedPlatform { os, arch }) => asset_for(
                    self.platform.os@,
                    self.platform.arch@,
                    self.platform.libc,
                ) is None && os@ == self.platform.os@ && arch@ == self.platform.arch@,
                Err(_) => false,
            },
    {
        let asset = match self.get_asset_name() {
            Ok(a) => a,
            Err(e) => return Err(e),
        };
        let tag = self.get_git_tag(version);
        let mut url = String::from_str("https://github.com/biomejs/biome/releases/download/");
        url.append(tag.as_str());
        url.append("/");
        url.append(asset.as_str());
        Ok(url)
    }
}

/// Checks the status code of the download response: a status outside the
/// 2xx range is a download error that carries it.
pub fn check_download_status(status: u16) -> (r: Result<(), InstallError>)
    ensures
        r is Ok <==> status_ok(status),
        r is Err ==> r == Err::<(), InstallError>(InstallError::Download { status }),
{
    if 200 <= status && status <= 299 {
        Ok(())
    } else {
        Err(InstallError::Download { status })
    }
}

/// Whether `s` begins with `p`.
pub open spec fn starts_with(s: Seq<char>, p: Seq<char>) -> bool {
    p.len() <= s.len() && s.subrange(0, p.len() as int) == p
}

/// Release tags are deterministic and split into two disjoint epochs: a
/// version of major 1 always gets a `cli/v` tag and never the
/// `@biomejs/biome@` form, and every other major the reverse.
pub proof fn lemma_tag_epochs(a: VersionParts, b: VersionParts)
    ensures
        a == b ==> tag_for(a) == tag_for(b),
        a.0 == 1 ==> starts_with(tag_for(a), "cli/v"@) && !starts_with(
            tag_for(a),
            "@biomejs/biome@"@,
        ),
        a.0 != 1 ==> starts_with(tag_for(a), "@biomejs/biome@"@) && !starts_with(
            tag_for(a),
            "cli/v"@,
        ),
{
    reveal_strlit("cli/v");
    reveal_strlit("@biomejs/biome@");
    let t = version_text(a);
    if a.0 == 1 {
        let s = "cli/v"@ + t;
        assert(s.subrange(0, 5) == "cli/v"@);
        assert(s[0] == 'c');
        if starts_with(s, "@biomejs/biome@"@) {
            assert(s.subrange(0, 15)[0] == '@');
        }
    } else {
        let s = "@biomejs/biome@"@ + t;
        assert(s.subrange(0, 15) == "@biomejs/biome@"@);
        assert(s[0] == '@');
        if starts_with(s, "cli/v"@) {
            assert(s.subrange(0, 5)[0] == 'c');
        }
    }
}

} // verus!
