use platform_info::winos::{
    os_version_info, os_version_info_from_dll, version_info_from_file, FileVersionEvidence,
    OsVersionInfoEx, WinApiFileVersionInfo,
};
use platform_info::PlatformInfoError;

fn record_block(major: u16, minor: u16, build: u16, release: u16) -> WinApiFileVersionInfo {
    let mut data = Vec::new();
    let ms = ((major as u32) << 16) | minor as u32;
    let ls = ((build as u32) << 16) | release as u32;
    let words: [u32; 13] = [0xFEEF04BD, 0x00010000, ms, ls, ms, ls, 0, 0, 0, 0, 0, 0, 0];
    for w in words {
        data.extend_from_slice(&w.to_le_bytes());
    }
    WinApiFileVersionInfo { data }
}

#[test]
fn test_version_info_from_dll_record() {
    let raw = OsVersionInfoEx {
        major_version: 10,
        minor_version: 0,
        build_number: 22631,
        product_type: 1,
        suite_mask: 0x200,
    };
    let info = os_version_info_from_dll(&raw);
    assert_eq!(info.os_name, "Windows 11");
    assert_eq!(info.release, "10.0");
    assert_eq!(info.version, "22631");
}

#[test]
fn test_version_info_from_file_evidence() {
    let ev = FileVersionEvidence {
        file_info: record_block(10, 0, 19041, 2130),
        root_offset: 0,
        wh_server_suite: false,
        nt_workstation: true,
    };
    let info = version_info_from_file(&ev).unwrap();
    assert_eq!(info.os_name, "Windows 10");
    assert_eq!(info.release, "10.0");
    assert_eq!(info.version, "19041");

    // the home-server probe drives the suite mask
    let ev = FileVersionEvidence {
        file_info: record_block(5, 2, 3790, 0),
        root_offset: 0,
        wh_server_suite: true,
        nt_workstation: false,
    };
    let info = version_info_from_file(&ev).unwrap();
    assert_eq!(info.os_name, "Windows Home Server");
    assert_eq!(info.release, "5.2");
    assert_eq!(info.version, "3790");
}

#[test]
fn test_resolver_prefers_primary() {
    let raw = OsVersionInfoEx {
        major_version: 6,
        minor_version: 1,
        build_number: 7601,
        product_type: 1,
        suite_mask: 0x200,
    };
    let ev = FileVersionEvidence {
        file_info: record_block(10, 0, 19041, 0),
        root_offset: 0,
        wh_server_suite: false,
        nt_workstation: true,
    };
    let resolved = os_version_info(Ok(raw), Some(ev)).unwrap();
    assert_eq!(resolved, os_version_info_from_dll(&raw));
    assert_eq!(resolved.os_name, "Windows 7");
}

#[test]
fn test_resolver_falls_back_to_file() {
    // with the primary path failed, the resolver's result equals what the
    // fallback path computes directly from the same evidence
    let ev = FileVersionEvidence {
        file_info: record_block(10, 0, 20348, 0),
        root_offset: 0,
        wh_server_suite: false,
        nt_workstation: false,
    };
    let resolved =
        os_version_info(Err(PlatformInfoError::SymbolResolutionFailed), Some(ev.clone())).unwrap();
    let direct = version_info_from_file(&ev).unwrap();
    assert_eq!(resolved, direct);
    assert_eq!(resolved.os_name, "Windows Server 2022");
    assert_eq!(resolved.release, "10.0");
    assert_eq!(resolved.version, "20348");
}

#[test]
fn test_resolver_errors() {
    assert_eq!(
        os_version_info(Err(PlatformInfoError::SymbolResolutionFailed), None),
        Err(PlatformInfoError::VersionResolutionFailed)
    );
    let ev = FileVersionEvidence {
        file_info: WinApiFileVersionInfo { data: vec![0u8; 10] },
        root_offset: 0,
        wh_server_suite: false,
        nt_workstation: true,
    };
    assert_eq!(
        os_version_info(Err(PlatformInfoError::VersionResolutionFailed), Some(ev)),
        Err(PlatformInfoError::ResourceReadFailed)
    );
}
