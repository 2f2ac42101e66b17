//! Uniform, uname-style platform identification.
//!
//! The library exposes an immutable snapshot of the running platform's
//! identity (kernel family, host name, release, version, hardware
//! architecture, and a friendly OS label) together with the pure logic that
//! produces those fields: the Windows version-to-name mapping table, the
//! architecture normalization table, the packed version-record decoding, and
//! the primary/fallback version-resolution chain.  The raw operating-system
//! queries themselves are performed by the surrounding application, which
//! hands their results to the constructors defined here as plain values.

use vstd::prelude::*;

pub mod arch;
pub mod snapshot;
pub mod text;
pub mod uname;
pub mod winos;

pub use arch::{determine_machine, map_processor, WinApiSystemInfo};
pub use snapshot::{
    determine_osname, determine_sysname, host_os_label, HostPlatform, PlatformInfo,
};
pub use uname::Uname;
pub use winos::{
    mmbr_from_file_version, os_version_info, os_version_info_from_dll, version_info_from_file,
    winos_name, FileVersionEvidence, MmbrVersion, OsVersionInfoEx, WinApiFileVersionInfo,
    WinOsVersionInfo, VS_FIXEDFILEINFO,
};

verus! {

/// The failure vocabulary of snapshot construction and version resolution.
#[derive(Clone, Copy, Debug, PartialEq, Eq, Structural)]
pub enum PlatformInfoError {
    /// The primary platform query failed; carries the platform's last-error code.
    OsQueryFailed(u32),
    /// Both the primary and the fallback version-resolution paths failed.
    VersionResolutionFailed,
    /// A version-resource block was absent, truncated, or of the wrong size.
    ResourceReadFailed,
    /// A required procedure could not be found in a loaded system library.
    SymbolResolutionFailed,
}

} // verus!
