//! Installation core of a cross-platform command-line installer: platform
//! identification, version resolution, release asset selection and
//! idempotent PATH configuration.
pub mod downloader;
pub mod error;
pub mod install;
pub mod installer;
pub mod paths;
pub mod platform;
pub mod text;
pub mod version;
