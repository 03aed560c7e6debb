//! The ways an installation can fail.
use vstd::prelude::*;

verus! {

/// Why an installation stage aborted the pipeline.
#[derive(Debug)]
pub enum InstallError {
    /// No version could be obtained: none was given and no index was usable.
    Resolution,
    /// No release asset is published for this operating system,
    /// architecture and C library.
    UnsupportedPlatform { os: String, arch: String },
    /// The release server answered with a status outside the 2xx range.
    Download { status: u16 },
    /// The installation directory could not be determined or written.
    Install,
    /// The shell configuration file or the user environment could not be
    /// updated.
    PathUpdate,
}

} // verus!
