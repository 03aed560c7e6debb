//! The platform descriptor: operating system, CPU architecture, C library
//! variant, active shell and executable extension.
use vstd::prelude::*;

use crate::text::{contains_str, join_path, joined, occurs_in, opt_chars, str_eq};

verus! {

/// The C library implementation of a Linux system.
#[derive(Clone, Copy, Debug, PartialEq, Eq, Structural)]
pub enum Libc {
    Musl,
    Glibc,
}

/// A shell whose configuration file can carry a PATH record.
#[derive(Clone, Copy, Debug, PartialEq, Eq, Structural)]
pub enum Shell {
    Bash,
    Zsh,
    Fish,
}

/// What the installer knows of the machine it runs on.
pub struct Platform {
    /// Operating system name, as Rust's `std::env::consts::OS` spells it.
    pub os: String,
    /// CPU architecture name, as Rust's `std::env::consts::ARCH` spells it.
    pub arch: String,
    pub libc: Libc,
    /// Suffix of executable file names (`.exe` on Windows, empty elsewhere).
    pub extension: String,
    pub shell: Option<Shell>,
}

impl Clone for Platform {
    fn clone(&self) -> (r: Self)
        ensures
            r == *self,
    {
        Platform {
            os: self.os.clone(),
            arch: self.arch.clone(),
            libc: self.libc,
            extension: self.extension.clone(),
            shell: self.shell,
        }
    }
}

impl Libc {
    /// The conventional name of the C library.
    pub fn as_str(&self) -> (r: &'static str)
        ensures
            r@ == libc_name(*self),
    {
        match self {
            Libc::Musl => "musl",
            Libc::Glibc => "glibc",
        }
    }
}

pub open spec fn libc_name(l: Libc) -> Seq<char> {
    match l {
        Libc::Musl => "musl"@,
        Libc::Glibc => "glibc"@,
    }
}

/// The shell named by the value of the `SHELL` variable, if it is a known one.
pub open spec fn shell_from(var: Option<Seq<char>>) -> Option<Shell> {
    match var {
        Some(v) => if occurs_in(v, "bash"@) {
            Some(Shell::Bash)
        } else if occurs_in(v, "zsh"@) {
            Some(Shell::Zsh)
        } else if occurs_in(v, "fish"@) {
            Some(Shell::Fish)
        } else {
            None
        },
        None => None,
    }
}

/// Where a shell's configuration file lies, relative to the home directory.
pub open spec fn config_name(shell: Shell, os: Seq<char>) -> Seq<char> {
    match shell {
        Shell::Bash => if os == "macos"@ {
            ".bash_profile"@
        } else {
            ".bashrc"@
        },
        Shell::Zsh => ".zshrc"@,
        Shell::Fish => ".config/fish/config.fish"@,
    }
}

/// A Linux system links against musl when the `ldd --version` report names it;
/// with no report, and off Linux, glibc is assumed.
pub open spec fn musl_reported(os: Seq<char>, ldd_report: Option<Seq<char>>) -> bool {
    os == "linux"@ && match ldd_report {
        Some(t) => occurs_in(t, "musl"@),
        None => false,
    }
}

pub open spec fn extension_for(os: Seq<char>) -> Seq<char> {
    if os == "windows"@ {
        ".exe"@
    } else {
        ""@
    }
}

impl Shell {
    /// Classifies the value of the `SHELL` variable.
    pub fn from_env(var: Option<&str>) -> (r: Option<Shell>)
        ensures
            r == shell_from(opt_chars(var)),
    {
        match var {
            Some(v) => if contains_str(v, "bash") {
                Some(Shell::Bash)
            } else if contains_str(v, "zsh") {
                Some(Shell::Zsh)
            } else if contains_str(v, "fish") {
                Some(Shell::Fish)
            } else {
                None
            },
            None => None,
        }
    }

    /// The file name of this shell's configuration file on `os`.
    pub fn config_name(&self, os: &str) -> (r: &'static str)
        ensures
            r@ == config_name(*self, os@),
    {
        match self {
            Shell::Bash => if str_eq(os, "macos") {
                ".bash_profile"
            } else {
                ".bashrc"
            },
            Shell::Zsh => ".zshrc",
            Shell::Fish => ".config/fish/config.fish",
        }
    }

    /// The path of this shell's configuration file under the home directory.
    pub fn config_file(&self, home: &str, os: &str) -> (r: String)
        ensures
            r@ == joined(home@, '/', config_name(*self, os@)),
    {
        proof {
            reveal_strlit("/");
        }
        join_path(home, "/", self.config_name(os))
    }
}

/// Whether the system links against musl, from the operating system name and
/// the output of `ldd --version` (`None` when the command could not be run).
pub fn is_musl(os: &str, ldd_report: Option<&str>) -> (r: bool)
    ensures
        r == musl_reported(os@, opt_chars(ldd_report)),
{
    if !str_eq(os, "linux") {
        return false;
    }
    match ldd_report {
        Some(t) => contains_str(t, "musl"),
        None => false,
    }
}

impl Platform {
    /// Describes the platform from what the environment reports: the OS and
    /// architecture names, the output of `ldd --version` if it could be run,
    /// and the value of `SHELL` if set.
    pub fn detect(os: &str, arch: &str, ldd_report: Option<&str>, shell_var: Option<&str>) -> (r:
        Platform)
        ensures
            r.os@ == os@,
            r.arch@ == arch@,
            r.libc == (if musl_reported(os@, opt_chars(ldd_report)) {
                Libc::Musl
            } else {
                Libc::Glibc
            }),
            r.extension@ == extension_for(os@),
            r.shell == shell_from(opt_chars(shell_var)),
    {
        Platform {
            os: String::from_str(os),
            arch: String::from_str(arch),
            libc: Self::detect_libc(os, ldd_report),
            extension: Self::detect_extension(os),
            shell: Shell::from_env(shell_var),
        }
    }

    fn detect_libc(os: &str, ldd_report: Option<&str>) -> (r: Libc)
        ensures
            r == (if musl_reported(os@, opt_chars(ldd_report)) {
                Libc::Musl
            } else {
                Libc::Glibc
            }),
    {
        if is_musl(os, ldd_report) {
            Libc::Musl
        } else {
            Libc::Glibc
        }
    }

    fn detect_extension(os: &str) -> (r: String)
        ensures
            r@ == extension_for(os@),
    {
        if str_eq(os, "windows") {
            String::from_str(".exe")
        } else {
            String::from_str("")
        }
    }
}

} // verus!
