use biome_installer::downloader::{check_download_status, Downloader};
use biome_installer::error::InstallError;
use biome_installer::platform::{Libc, Platform};
use biome_installer::version::{get_latest_stable_version, parse_version_list, Version};

fn platform(os: &str, arch: &str, libc: Libc) -> Platform {
    Platform {
        os: os.to_string(),
        arch: arch.to_string(),
        libc,
        extension: if os == "windows" { ".exe".to_string() } else { String::new() },
        shell: None,
    }
}

fn asset(os: &str, arch: &str, libc: Libc) -> Result<String, InstallError> {
    Downloader::new(platform(os, arch, libc)).get_asset_name()
}

#[test]
fn every_supported_platform_has_its_recorded_asset() {
    let table = [
        ("linux", "x86_64", Libc::Glibc, "biome-linux-x64"),
        ("linux", "x86_64", Libc::Musl, "biome-linux-x64-musl"),
        ("linux", "aarch64", Libc::Glibc, "biome-linux-arm64"),
        ("linux", "aarch64", Libc::Musl, "biome-linux-arm64-musl"),
        ("macos", "x86_64", Libc::Glibc, "biome-darwin-x64"),
        ("macos", "aarch64", Libc::Glibc, "biome-darwin-arm64"),
        ("windows", "x86_64", Libc::Glibc, "biome-win32-x64.exe"),
        ("windows", "aarch64", Libc::Glibc, "biome-win32-arm64.exe"),
    ];
    for (os, arch, libc, expected) in table {
        assert_eq!(asset(os, arch, libc).unwrap(), expected);
    }
}

#[test]
fn libc_is_ignored_off_linux() {
    assert_eq!(asset("macos", "aarch64", Libc::Musl).unwrap(), "biome-darwin-arm64");
    assert_eq!(asset("windows", "x86_64", Libc::Musl).unwrap(), "biome-win32-x64.exe");
}

#[test]
fn unsupported_platform_names_os_and_arch() {
    for (os, arch) in [("freebsd", "x86_64"), ("linux", "riscv64"), ("macos", "x86"), ("", "")] {
        match asset(os, arch, Libc::Glibc) {
            Err(InstallError::UnsupportedPlatform { os: o, arch: a }) => {
                assert_eq!(o, os);
                assert_eq!(a, arch);
            }
            other => panic!("unexpected result {:?}", other),
        }
    }
}

#[test]
fn major_one_uses_the_cli_tag() {
    let d = Downloader::new(platform("linux", "x86_64", Libc::Glibc));
    assert_eq!(d.get_git_tag(&Version::new(1, 9, 4)), "cli/v1.9.4");
    assert_eq!(d.get_git_tag(&Version::new(1, 0, 0)), "cli/v1.0.0");
}

#[test]
fn later_majors_use_the_scoped_tag() {
    let d = Downloader::new(platform("linux", "x86_64", Libc::Glibc));
    assert_eq!(d.get_git_tag(&Version::new(2, 0, 5)), "@biomejs/biome@2.0.5");
    assert_eq!(d.get_git_tag(&Version::new(0, 1, 0)), "@biomejs/biome@0.1.0");
    assert_eq!(d.get_git_tag(&Version::new(17, 230, 1004)), "@biomejs/biome@17.230.1004");
}

#[test]
fn tag_is_deterministic() {
    let d = Downloader::new(platform("linux", "x86_64", Libc::Glibc));
    let v = Version::parse("2.0.0-beta.5").unwrap();
    assert_eq!(d.get_git_tag(&v), d.get_git_tag(&v.clone()));
    assert_eq!(d.get_git_tag(&v), "@biomejs/biome@2.0.0-beta.5");
}

#[test]
fn download_url_combines_tag_and_asset() {
    let d = Downloader::new(platform("linux", "x86_64", Libc::Glibc));
    assert_eq!(
        d.download_url(&Version::new(2, 0, 5)).unwrap(),
        "https://github.com/biomejs/biome/releases/download/@biomejs/biome@2.0.5/biome-linux-x64"
    );
    let w = Downloader::new(platform("windows", "aarch64", Libc::Glibc));
    assert_eq!(
        w.download_url(&Version::new(1, 9, 4)).unwrap(),
        "https://github.com/biomejs/biome/releases/download/cli/v1.9.4/biome-win32-arm64.exe"
    );
}

#[test]
fn download_url_of_unsupported_platform_fails() {
    let d = Downloader::new(platform("plan9", "mips", Libc::Glibc));
    assert!(matches!(
        d.download_url(&Version::new(2, 0, 5)),
        Err(InstallError::UnsupportedPlatform { .. })
    ));
}

#[test]
fn status_outside_2xx_is_a_download_error() {
    assert!(check_download_status(200).is_ok());
    assert!(check_download_status(204).is_ok());
    assert!(check_download_status(299).is_ok());
    for status in [199u16, 300, 302, 404, 500] {
        match check_download_status(status) {
            Err(InstallError::Download { status: s }) => assert_eq!(s, status),
            other => panic!("unexpected result {:?}", other),
        }
    }
}

#[test]
fn version_text_is_canonical() {
    assert_eq!(Version::new(2, 1, 0).to_string(), "2.1.0");
    assert_eq!(Version::new(10, 0, 18446744073709551615).to_string(), "10.0.18446744073709551615");
    let v = Version::parse("1.2.3-alpha.1+build.5").unwrap();
    assert_eq!((v.major, v.minor, v.patch), (1, 2, 3));
    assert_eq!(v.pre, "alpha.1");
    assert_eq!(v.build, "build.5");
    assert_eq!(v.to_string(), "1.2.3-alpha.1+build.5");
    assert_eq!(Version::parse("3.0.0+exp").unwrap().to_string(), "3.0.0+exp");
}

#[test]
fn invalid_versions_are_rejected() {
    assert!(Version::parse("").is_none());
    assert!(Version::parse("2.0").is_none());
    assert!(Version::parse("latest").is_none());
}

#[test]
fn latest_endpoint_body_is_trimmed() {
    let v = get_latest_stable_version("  2.1.0\n").unwrap();
    assert_eq!(v.to_string(), "2.1.0");
    assert!(matches!(get_latest_stable_version("<html>"), Err(InstallError::Resolution)));
    assert!(matches!(get_latest_stable_version(""), Err(InstallError::Resolution)));
}

#[test]
fn stable_list_skips_blank_and_unparsable_lines() {
    let body = "2.1.0\n\n   \n  2.0.6 \nnot-a-version\r\n2.0.5\r\n1.9.4";
    let listed: Vec<String> = parse_version_list(body).iter().map(|v| v.to_string()).collect();
    assert_eq!(listed, vec!["2.1.0", "2.0.6", "2.0.5", "1.9.4"]);
    assert!(parse_version_list("").is_empty());
    assert!(parse_version_list("\n\nfoo\n").is_empty());
}

#[test]
fn unicode_white_space_is_trimmed() {
    let v = get_latest_stable_version("\u{feff}2.1.0").is_err();
    assert!(v);
    let w = get_latest_stable_version("\u{3000}\t2.1.0\u{85}\u{a0}\r\n").unwrap();
    assert_eq!(w.to_string(), "2.1.0");
}
