//! Windows version resolution: decoding packed version records, mapping raw
//! version numbers to friendly OS names, and the primary/fallback resolution
//! chain.
//!
//! The live queries (the internal version procedure, the resource block of a
//! known system binary, the two edition probes) are performed by the
//! surrounding application; their results enter here as plain values and
//! everything after that point is verified.

use vstd::prelude::*;

use crate::text::{
    lemma_decimal_valid, lemma_printable_concat, spec_decimal, to_decimal, valid_text,
};
use crate::PlatformInfoError;

verus! {

/// Product-type classification bit: a workstation edition.
pub const VER_NT_WORKSTATION: u8 = 1;

/// Product-type classification bit: a server edition.
pub const VER_NT_SERVER: u8 = 3;

/// Suite-mask bit: a personal (home) edition.
pub const VER_SUITE_PERSONAL: u32 = 0x200;

/// Suite-mask bit: a small-business server edition.
pub const VER_SUITE_SMALLBUSINESS: u32 = 0x1;

/// Suite-mask bit: a home-server edition.
pub const VER_SUITE_WH_SERVER: u32 = 0x8000;

/// The most significant sixteen bits of a double word.
pub open spec fn spec_hiword(x: u32) -> u32 {
    x / 0x10000
}

/// The least significant sixteen bits of a double word.
pub open spec fn spec_loword(x: u32) -> u32 {
    x % 0x10000
}

/// Extracts the most significant word of a double word.
pub fn hiword(x: u32) -> (r: u32)
    ensures
        r == spec_hiword(x),
{
    proof {
        assert(x >> 16 == x / 0x10000) by (bit_vector);
    }
    x >> 16
}

/// Extracts the least significant word of a double word.
pub fn loword(x: u32) -> (r: u32)
    ensures
        r == spec_loword(x),
{
    proof {
        assert(x & 0xFFFF == x % 0x10000) by (bit_vector);
    }
    x & 0xFFFF
}

/// A double word read from four bytes, least significant byte first.
pub open spec fn spec_le_u32(b: Seq<u8>, i: int) -> u32
    recommends
        0 <= i,
        i + 4 <= b.len(),
{
    ((b[i] as int) + (b[i + 1] as int) * 0x100 + (b[i + 2] as int) * 0x10000 + (b[i + 3] as int)
        * 0x1000000) as u32
}

fn read_le_u32(data: &Vec<u8>, i: usize) -> (r: u32)
    requires
        i + 4 <= data@.len(),
    ensures
        r == spec_le_u32(data@, i as int),
{
    let n = data.len();
    assert(i + 4 <= n);
    let b0 = data[i] as u32;
    let b1 = data[i + 1] as u32;
    let b2 = data[i + 2] as u32;
    let b3 = data[i + 3] as u32;
    b0 + b1 * 0x100 + b2 * 0x10000 + b3 * 0x1000000
}

/// A file's embedded version-resource block, wrapped as a byte vector.
#[derive(Clone, Debug, PartialEq, Eq)]
pub struct WinApiFileVersionInfo {
    /// The raw bytes of the resource block.
    pub data: Vec<u8>,
}

/// The fixed-format version record embedded in a version-resource block:
/// thirteen double words, each stored least significant byte first.
#[allow(non_camel_case_types)]
#[allow(non_snake_case)]
#[derive(Clone, Copy, Debug, PartialEq, Eq, Structural)]
pub struct VS_FIXEDFILEINFO {
    /// Magic number identifying the record.
    pub dwSignature: u32,
    /// Binary version of the record layout itself.
    pub dwStrucVersion: u32,
    /// File version, most significant double word.
    pub dwFileVersionMS: u32,
    /// File version, least significant double word.
    pub dwFileVersionLS: u32,
    /// Product version, most significant double word.
    pub dwProductVersionMS: u32,
    /// Product version, least significant double word.
    pub dwProductVersionLS: u32,
    /// Which bits of `dwFileFlags` are valid.
    pub dwFileFlagsMask: u32,
    /// Build attributes of the file.
    pub dwFileFlags: u32,
    /// Operating system the file was designed for.
    pub dwFileOS: u32,
    /// General type of the file.
    pub dwFileType: u32,
    /// Function of the file within its type.
    pub dwFileSubtype: u32,
    /// Creation date, most significant double word.
    pub dwFileDateMS: u32,
    /// Creation date, least significant double word.
    pub dwFileDateLS: u32,
}

/// The number of bytes a fixed version record occupies.
pub const FIXED_FILE_INFO_SIZE: usize = 52;

/// The fixed version record read out of a byte sequence at a given offset.
pub open spec fn spec_fixed_file_info(b: Seq<u8>, off: int) -> VS_FIXEDFILEINFO
    recommends
        0 <= off,
        off + FIXED_FILE_INFO_SIZE <= b.len(),
{
    VS_FIXEDFILEINFO {
        dwSignature: spec_le_u32(b, off),
        dwStrucVersion: spec_le_u32(b, off + 4),
        dwFileVersionMS: spec_le_u32(b, off + 8),
        dwFileVersionLS: spec_le_u32(b, off + 12),
        dwProductVersionMS: spec_le_u32(b, off + 16),
        dwProductVersionLS: spec_le_u32(b, off + 20),
        dwFileFlagsMask: spec_le_u32(b, off + 24),
        dwFileFlags: spec_le_u32(b, off + 28),
        dwFileOS: spec_le_u32(b, off + 32),
        dwFileType: spec_le_u32(b, off + 36),
        dwFileSubtype: spec_le_u32(b, off + 40),
        dwFileDateMS: spec_le_u32(b, off + 44),
        dwFileDateLS: spec_le_u32(b, off + 48),
    }
}

/// Whether a resource block holds a whole fixed version record at an offset.
pub open spec fn root_record_fits(data: Seq<u8>, off: int) -> bool {
    0 <= off && off + FIXED_FILE_INFO_SIZE <= data.len()
}

/// Decodes the "root" fixed version record found at `root_offset` within the
/// version-resource block, or reports that the block is too small to hold one
/// there.
#[allow(non_snake_case)]
pub fn WinOsFileVersionInfoQuery_root(
    version_info: &WinApiFileVersionInfo,
    root_offset: usize,
) -> (r: Result<VS_FIXEDFILEINFO, PlatformInfoError>)
    ensures
        root_record_fits(version_info.data@, root_offset as int) ==> r is Ok && r->Ok_0
            == spec_fixed_file_info(version_info.data@, root_offset as int),
        !root_record_fits(version_info.data@, root_offset as int) ==> r == Err::<
            VS_FIXEDFILEINFO,
            PlatformInfoError,
        >(PlatformInfoError::ResourceReadFailed),
{
    let len = version_info.data.len();
    if len < FIXED_FILE_INFO_SIZE || root_offset > len - FIXED_FILE_INFO_SIZE {
        return Err(PlatformInfoError::ResourceReadFailed);
    }
    let d = &version_info.data;
    let o = root_offset;
    Ok(
        VS_FIXEDFILEINFO {
            dwSignature: read_le_u32(d, o),
            dwStrucVersion: read_le_u32(d, o + 4),
            dwFileVersionMS: read_le_u32(d, o + 8),
            dwFileVersionLS: read_le_u32(d, o + 12),
            dwProductVersionMS: read_le_u32(d, o + 16),
            dwProductVersionLS: read_le_u32(d, o + 20),
            dwFileFlagsMask: read_le_u32(d, o + 24),
            dwFileFlags: read_le_u32(d, o + 28),
            dwFileOS: read_le_u32(d, o + 32),
            dwFileType: read_le_u32(d, o + 36),
            dwFileSubtype: read_le_u32(d, o + 40),
            dwFileDateMS: read_le_u32(d, o + 44),
            dwFileDateLS: read_le_u32(d, o + 48),
        },
    )
}

/// A version split into major, minor, build and release double words.
#[derive(Clone, Debug, PartialEq, Eq, Structural)]
pub struct MmbrVersion {
    /// Major version number.
    pub major: u32,
    /// Minor version number.
    pub minor: u32,
    /// Build number.
    pub build: u32,
    /// Release (revision) number.
    pub release: u32,
}

/// The version numbers packed into a record's product-version double words:
/// major and minor in the most significant pair, build and release in the
/// least significant pair.
pub open spec fn spec_mmbr(info: VS_FIXEDFILEINFO) -> MmbrVersion {
    MmbrVersion {
        major: spec_hiword(info.dwProductVersionMS),
        minor: spec_loword(info.dwProductVersionMS),
        build: spec_hiword(info.dwProductVersionLS),
        release: spec_loword(info.dwProductVersionLS),
    }
}

/// Unpacks the product version of a fixed version record into its four parts.
pub fn mmbr_from_file_version(info: &VS_FIXEDFILEINFO) -> (r: MmbrVersion)
    ensures
        r == spec_mmbr(*info),
{
    MmbrVersion {
        major: hiword(info.dwProductVersionMS),
        minor: loword(info.dwProductVersionMS),
        build: hiword(info.dwProductVersionLS),
        release: loword(info.dwProductVersionLS),
    }
}

/// The generic name used when no table entry matches: the workstation or
/// server family label followed by "major.minor".
pub open spec fn spec_default_name(major: u32, minor: u32, product_type: u8) -> Seq<char> {
    if product_type == VER_NT_WORKSTATION {
        "Windows "@ + spec_decimal(major as nat) + "."@ + spec_decimal(minor as nat)
    } else {
        "Windows Server "@ + spec_decimal(major as nat) + "."@ + spec_decimal(minor as nat)
    }
}

/// The friendly OS name for a version tuple: the historical table, evaluated
/// so that the more specific product-type and suite-mask entries win, with
/// half-open build-number ranges, and the generic family name as fallback.
pub open spec fn spec_winos_name(
    major: u32,
    minor: u32,
    build: u32,
    product_type: u8,
    suite_mask: u32,
) -> Seq<char> {
    if major == 5 {
        if minor == 0 {
            "Windows 2000"@
        } else if minor == 1 {
            "Windows XP"@
        } else if minor == 2 {
            if product_type == VER_NT_WORKSTATION {
                "Windows XP Professional x64 Edition"@
            } else if suite_mask == VER_SUITE_WH_SERVER {
                "Windows Home Server"@
            } else {
                "Windows Server 2003"@
            }
        } else {
            spec_default_name(major, minor, product_type)
        }
    } else if major == 6 {
        if minor == 0 {
            if product_type == VER_NT_WORKSTATION {
                "Windows Vista"@
            } else {
                "Windows Server 2008"@
            }
        } else if minor == 1 {
            if product_type != VER_NT_WORKSTATION {
                "Windows Server 2008 R2"@
            } else {
                "Windows 7"@
            }
        } else if minor == 2 {
            if product_type != VER_NT_WORKSTATION {
                "Windows Server 2012"@
            } else {
                "Windows 8"@
            }
        } else if minor == 3 {
            if product_type != VER_NT_WORKSTATION {
                "Windows Server 2012 R2"@
            } else {
                "Windows 8.1"@
            }
        } else {
            spec_default_name(major, minor, product_type)
        }
    } else if major == 10 {
        if minor == 0 && product_type == VER_NT_WORKSTATION && build >= 22000 {
            "Windows 11"@
        } else if minor == 0 && product_type != VER_NT_WORKSTATION && 14000 <= build && build
            < 17000 {
            "Windows Server 2016"@
        } else if minor == 0 && product_type != VER_NT_WORKSTATION && 17000 <= build && build
            < 19000 {
            "Windows Server 2019"@
        } else if minor == 0 && product_type != VER_NT_WORKSTATION && build >= 20000 {
            "Windows Server 2022"@
        } else {
            "Windows 10"@
        }
    } else {
        spec_default_name(major, minor, product_type)
    }
}

fn default_name(major: u32, minor: u32, product_type: u8) -> (r: String)
    ensures
        r@ == spec_default_name(major, minor, product_type),
{
    let mut s = if product_type == VER_NT_WORKSTATION {
        String::from_str("Windows ")
    } else {
        String::from_str("Windows Server ")
    };
    let mj = to_decimal(major);
    s.append(mj.as_str());
    s.append(".");
    let mn = to_decimal(minor);
    s.append(mn.as_str());
    proof {
        assert(s@ =~= spec_default_name(major, minor, product_type));
    }
    s
}

/// Maps a raw version tuple to the friendly OS name.
pub fn winos_name(major: u32, minor: u32, build: u32, product_type: u8, suite_mask: u32) -> (r:
    String)
    ensures
        r@ == spec_winos_name(major, minor, build, product_type, suite_mask),
{
    if major == 5 {
        if minor == 0 {
            String::from_str("Windows 2000")
        } else if minor == 1 {
            String::from_str("Windows XP")
        } else if minor == 2 {
            if product_type == VER_NT_WORKSTATION {
                String::from_str("Windows XP Professional x64 Edition")
            } else if suite_mask == VER_SUITE_WH_SERVER {
                String::from_str("Windows Home Server")
            } else {
                String::from_str("Windows Server 2003")
            }
        } else {
            default_name(major, minor, product_type)
        }
    } else if major == 6 {
        if minor == 0 {
            if product_type == VER_NT_WORKSTATION {
                String::from_str("Windows Vista")
            } else {
                String::from_str("Windows Server 2008")
            }
        } else if minor == 1 {
            if product_type != VER_NT_WORKSTATION {
                String::from_str("Windows Server 2008 R2")
            } else {
                String::from_str("Windows 7")
            }
        } else if minor == 2 {
            if product_type != VER_NT_WORKSTATION {
                String::from_str("Windows Server 2012")
            } else {
                String::from_str("Windows 8")
            }
        } else if minor == 3 {
            if product_type != VER_NT_WORKSTATION {
                String::from_str("Windows Server 2012 R2")
            } else {
                String::from_str("Windows 8.1")
            }
        } else {
            default_name(major, minor, product_type)
        }
    } else if major == 10 {
        if minor == 0 && product_type == VER_NT_WORKSTATION && build >= 22000 {
            String::from_str("Windows 11")
        } else if minor == 0 && product_type != VER_NT_WORKSTATION && 14000 <= build && build
            < 17000 {
            String::from_str("Windows Server 2016")
        } else if minor == 0 && product_type != VER_NT_WORKSTATION && 17000 <= build && build
            < 19000 {
            String::from_str("Windows Server 2019")
        } else if minor == 0 && product_type != VER_NT_WORKSTATION && build >= 20000 {
            String::from_str("Windows Server 2022")
        } else {
            String::from_str("Windows 10")
        }
    } else {
        default_name(major, minor, product_type)
    }
}

/// The generic family name is always non-empty printable text.
proof fn lemma_default_name_valid(major: u32, minor: u32, product_type: u8)
    ensures
        valid_text(spec_default_name(major, minor, product_type)),
{
    reveal_strlit("Windows ");
    reveal_strlit("Windows Server ");
    reveal_strlit(".");
    lemma_decimal_valid(major as nat);
    lemma_decimal_valid(minor as nat);
    let head = if product_type == VER_NT_WORKSTATION {
        "Windows "@
    } else {
        "Windows Server "@
    };
    lemma_printable_concat(head, spec_decimal(major as nat));
    lemma_printable_concat(head + spec_decimal(major as nat), "."@);
    lemma_printable_concat(head + spec_decimal(major as nat) + "."@, spec_decimal(minor as nat));
}

/// The release text for a version pair: "major.minor".
pub open spec fn spec_release_text(major: u32, minor: u32) -> Seq<char> {
    spec_decimal(major as nat) + "."@ + spec_decimal(minor as nat)
}

fn release_text(major: u32, minor: u32) -> (r: String)
    ensures
        r@ == spec_release_text(major, minor),
{
    let mut s = to_decimal(major);
    s.append(".");
    let mn = to_decimal(minor);
    s.append(mn.as_str());
    proof {
        assert(s@ =~= spec_release_text(major, minor));
    }
    s
}

/// A release text is always non-empty printable text.
pub proof fn lemma_release_text_valid(major: u32, minor: u32)
    ensures
        valid_text(spec_release_text(major, minor)),
{
    reveal_strlit(".");
    lemma_decimal_valid(major as nat);
    lemma_decimal_valid(minor as nat);
    lemma_printable_concat(spec_decimal(major as nat), "."@);
    lemma_printable_concat(spec_decimal(major as nat) + "."@, spec_decimal(minor as nat));
}

/// Every friendly OS name the table can produce is non-empty printable text.
pub proof fn lemma_winos_name_valid(
    major: u32,
    minor: u32,
    build: u32,
    product_type: u8,
    suite_mask: u32,
)
    ensures
        valid_text(spec_winos_name(major, minor, build, product_type, suite_mask)),
{
    reveal_strlit("Windows 2000");
    reveal_strlit("Windows XP");
    reveal_strlit("Windows XP Professional x64 Edition");
    reveal_strlit("Windows Home Server");
    reveal_strlit("Windows Server 2003");
    reveal_strlit("Windows Vista");
    reveal_strlit("Windows Server 2008");
    reveal_strlit("Windows Server 2008 R2");
    reveal_strlit("Windows 7");
    reveal_strlit("Windows Server 2012");
    reveal_strlit("Windows 8");
    reveal_strlit("Windows Server 2012 R2");
    reveal_strlit("Windows 8.1");
    reveal_strlit("Windows 11");
    reveal_strlit("Windows Server 2016");
    reveal_strlit("Windows Server 2019");
    reveal_strlit("Windows Server 2022");
    reveal_strlit("Windows 10");
    lemma_default_name_valid(major, minor, product_type);
}

/// The version numbers and classification bits reported by the internal
/// version-query procedure, as plain values.
#[derive(Clone, Copy, Debug, PartialEq, Eq, Structural)]
pub struct OsVersionInfoEx {
    /// Major version number.
    pub major_version: u32,
    /// Minor version number.
    pub minor_version: u32,
    /// Build number.
    pub build_number: u32,
    /// Product-type classification byte.
    pub product_type: u8,
    /// Suite-mask classification bits.
    pub suite_mask: u16,
}

/// Resolved OS version information: the friendly OS name, the general
/// release ("major.minor"), and the specific version (the build number).
#[derive(Clone, Debug, PartialEq, Eq)]
pub struct WinOsVersionInfo {
    /// Friendly OS name.
    pub os_name: String,
    /// General release, "major.minor".
    pub release: String,
    /// Specific version, the build number.
    pub version: String,
}

impl WinOsVersionInfo {
    /// All three fields are non-empty printable text.
    pub open spec fn wf(&self) -> bool {
        valid_text(self.os_name@) && valid_text(self.release@) && valid_text(self.version@)
    }
}

/// The friendly OS name derived from a primary-path version record.
pub open spec fn spec_dll_name(p: OsVersionInfoEx) -> Seq<char> {
    spec_winos_name(
        p.major_version,
        p.minor_version,
        p.build_number,
        p.product_type,
        p.suite_mask as u32,
    )
}

/// Builds resolved version information from the primary path's raw record.
pub fn os_version_info_from_dll(p: &OsVersionInfoEx) -> (r: WinOsVersionInfo)
    ensures
        r.os_name@ == spec_dll_name(*p),
        r.release@ == spec_release_text(p.major_version, p.minor_version),
        r.version@ == spec_decimal(p.build_number as nat),
        r.wf(),
{
    proof {
        lemma_winos_name_valid(
            p.major_version,
            p.minor_version,
            p.build_number,
            p.product_type,
            p.suite_mask as u32,
        );
        lemma_release_text_valid(p.major_version, p.minor_version);
        lemma_decimal_valid(p.build_number as nat);
    }
    WinOsVersionInfo {
        os_name: winos_name(
            p.major_version,
            p.minor_version,
            p.build_number,
            p.product_type,
            p.suite_mask as u32,
        ),
        release: release_text(p.major_version, p.minor_version),
        version: to_decimal(p.build_number),
    }
}

/// What the fallback path gathered: the resource block of the well-known
/// system binary, the offset of its root record, and the outcomes of the two
/// live edition probes (home-server suite, workstation product type).
#[derive(Clone, Debug, PartialEq, Eq)]
pub struct FileVersionEvidence {
    /// The version-resource block read from the system binary.
    pub file_info: WinApiFileVersionInfo,
    /// Offset of the root fixed version record within the block.
    pub root_offset: usize,
    /// Whether the live OS matched the home-server suite probe.
    pub wh_server_suite: bool,
    /// Whether the live OS matched the workstation product-type probe.
    pub nt_workstation: bool,
}

/// The suite mask implied by the home-server probe outcome.
pub open spec fn spec_probed_suite_mask(wh_server_suite: bool) -> u32 {
    if wh_server_suite {
        VER_SUITE_WH_SERVER
    } else {
        0
    }
}

/// The product type implied by the workstation probe outcome.
pub open spec fn spec_probed_product_type(nt_workstation: bool) -> u8 {
    if nt_workstation {
        VER_NT_WORKSTATION
    } else {
        0
    }
}

/// The friendly OS name the fallback path derives from its evidence.
pub open spec fn spec_file_name(data: Seq<u8>, off: int, wh: bool, ws: bool) -> Seq<char> {
    let v = spec_mmbr(spec_fixed_file_info(data, off));
    spec_winos_name(
        v.major,
        v.minor,
        v.build,
        spec_probed_product_type(ws),
        spec_probed_suite_mask(wh),
    )
}

/// The release text the fallback path derives from its evidence.
pub open spec fn spec_file_release(data: Seq<u8>, off: int) -> Seq<char> {
    let v = spec_mmbr(spec_fixed_file_info(data, off));
    spec_release_text(v.major, v.minor)
}

/// The version text the fallback path derives from its evidence.
pub open spec fn spec_file_version(data: Seq<u8>, off: int) -> Seq<char> {
    let v = spec_mmbr(spec_fixed_file_info(data, off));
    spec_decimal(v.build as nat)
}

/// Builds resolved version information from the fallback path's evidence:
/// the packed version record of the system binary plus the two probe
/// outcomes standing in for the classification bits the record lacks.
pub fn version_info_from_file(ev: &FileVersionEvidence) -> (r: Result<
    WinOsVersionInfo,
    PlatformInfoError,
>)
    ensures
        root_record_fits(ev.file_info.data@, ev.root_offset as int) ==> r is Ok && (
        r->Ok_0).os_name@ == spec_file_name(
            ev.file_info.data@,
            ev.root_offset as int,
            ev.wh_server_suite,
            ev.nt_workstation,
        ) && (r->Ok_0).release@ == spec_file_release(ev.file_info.data@, ev.root_offset as int) && (
        r->Ok_0).version@ == spec_file_version(ev.file_info.data@, ev.root_offset as int) && (
        r->Ok_0).wf(),
        !root_record_fits(ev.file_info.data@, ev.root_offset as int) ==> r == Err::<
            WinOsVersionInfo,
            PlatformInfoError,
        >(PlatformInfoError::ResourceReadFailed),
{
    let info = match WinOsFileVersionInfoQuery_root(&ev.file_info, ev.root_offset) {
        Ok(info) => info,
        Err(e) => {
            return Err(e);
        },
    };
    let v = mmbr_from_file_version(&info);
    let suite_mask = if ev.wh_server_suite {
        VER_SUITE_WH_SERVER
    } else {
        0
    };
    let product_type = if ev.nt_workstation {
        VER_NT_WORKSTATION
    } else {
        0
    };
    proof {
        lemma_winos_name_valid(v.major, v.minor, v.build, product_type, suite_mask);
        lemma_release_text_valid(v.major, v.minor);
        lemma_decimal_valid(v.build as nat);
    }
    Ok(
        WinOsVersionInfo {
            os_name: winos_name(v.major, v.minor, v.build, product_type, suite_mask),
            release: release_text(v.major, v.minor),
            version: to_decimal(v.build),
        },
    )
}

/// Whether the resolution chain succeeds on the given outcomes: the primary
/// path yielded a record, or the fallback evidence holds a whole root record.
pub open spec fn spec_resolves(
    primary: Result<OsVersionInfoEx, PlatformInfoError>,
    fallback: Option<FileVersionEvidence>,
) -> bool {
    primary is Ok || (fallback is Some && root_record_fits(
        fallback->0.file_info.data@,
        fallback->0.root_offset as int,
    ))
}

/// The friendly OS name the resolution chain produces: the primary path's
/// if it yielded a record, otherwise the fallback path's.
pub open spec fn spec_resolved_name(
    primary: Result<OsVersionInfoEx, PlatformInfoError>,
    fallback: Option<FileVersionEvidence>,
) -> Seq<char>
    recommends
        spec_resolves(primary, fallback),
{
    if primary is Ok {
        spec_dll_name(primary->Ok_0)
    } else {
        spec_file_name(
            fallback->0.file_info.data@,
            fallback->0.root_offset as int,
            fallback->0.wh_server_suite,
            fallback->0.nt_workstation,
        )
    }
}

/// The release text the resolution chain produces.
pub open spec fn spec_resolved_release(
    primary: Result<OsVersionInfoEx, PlatformInfoError>,
    fallback: Option<FileVersionEvidence>,
) -> Seq<char>
    recommends
        spec_resolves(primary, fallback),
{
    if primary is Ok {
        spec_release_text(primary->Ok_0.major_version, primary->Ok_0.minor_version)
    } else {
        spec_file_release(fallback->0.file_info.data@, fallback->0.root_offset as int)
    }
}

/// The version text the resolution chain produces.
pub open spec fn spec_resolved_version(
    primary: Result<OsVersionInfoEx, PlatformInfoError>,
    fallback: Option<FileVersionEvidence>,
) -> Seq<char>
    recommends
        spec_resolves(primary, fallback),
{
    if primary is Ok {
        spec_decimal(primary->Ok_0.build_number as nat)
    } else {
        spec_file_version(fallback->0.file_info.data@, fallback->0.root_offset as int)
    }
}

/// Resolves OS version information from the outcomes of the two paths: the
/// primary path's record wins; any failure of the primary path is silently
/// absorbed and the fallback evidence decides; with no fallback evidence
/// either, resolution fails.
pub fn os_version_info(
    primary: Result<OsVersionInfoEx, PlatformInfoError>,
    fallback: Option<FileVersionEvidence>,
) -> (r: Result<WinOsVersionInfo, PlatformInfoError>)
    ensures
        spec_resolves(primary, fallback) ==> r is Ok && (r->Ok_0).os_name@ == spec_resolved_name(
            primary,
            fallback,
        ) && (r->Ok_0).release@ == spec_resolved_release(primary, fallback) && (r->Ok_0).version@
            == spec_resolved_version(primary, fallback) && (r->Ok_0).wf(),
        primary is Err && fallback is None ==> r == Err::<WinOsVersionInfo, PlatformInfoError>(
            PlatformInfoError::VersionResolutionFailed,
        ),
        primary is Err && fallback is Some && !root_record_fits(
            fallback->0.file_info.data@,
            fallback->0.root_offset as int,
        ) ==> r == Err::<WinOsVersionInfo, PlatformInfoError>(
            PlatformInfoError::ResourceReadFailed,
        ),
{
    match primary {
        Ok(p) => Ok(os_version_info_from_dll(&p)),
        Err(_) => match fallback {
            Some(ev) => version_info_from_file(&ev),
            None => Err(PlatformInfoError::VersionResolutionFailed),
        },
    }
}

/// Resolver fallback law: however the primary path failed, the resolution
/// chain produces exactly what the fallback path computes directly from the
/// same evidence.
pub proof fn lemma_resolver_uses_fallback(e: PlatformInfoError, ev: FileVersionEvidence)
    ensures
        spec_resolves(Err(e), Some(ev)) == root_record_fits(
            ev.file_info.data@,
            ev.root_offset as int,
        ),
        spec_resolved_name(Err(e), Some(ev)) == spec_file_name(
            ev.file_info.data@,
            ev.root_offset as int,
            ev.wh_server_suite,
            ev.nt_workstation,
        ),
        spec_resolved_release(Err(e), Some(ev)) == spec_file_release(
            ev.file_info.data@,
            ev.root_offset as int,
        ),
        spec_resolved_version(Err(e), Some(ev)) == spec_file_version(
            ev.file_info.data@,
            ev.root_offset as int,
        ),
{
}

} // verus!
