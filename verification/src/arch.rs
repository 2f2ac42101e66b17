//! Hardware-architecture identification: the raw machine name derived from
//! the native system information, and the normalized processor name that
//! matches the conventions of the widely used uname utility.

use vstd::prelude::*;

use crate::text::{str_eq, valid_text};

verus! {

/// Processor-architecture code: 32-bit x86.
pub const PROCESSOR_ARCHITECTURE_INTEL: u16 = 0;

/// Processor-architecture code: MIPS.
pub const PROCESSOR_ARCHITECTURE_MIPS: u16 = 1;

/// Processor-architecture code: Alpha.
pub const PROCESSOR_ARCHITECTURE_ALPHA: u16 = 2;

/// Processor-architecture code: PowerPC.
pub const PROCESSOR_ARCHITECTURE_PPC: u16 = 3;

/// Processor-architecture code: SuperH.
pub const PROCESSOR_ARCHITECTURE_SHX: u16 = 4;

/// Processor-architecture code: 32-bit ARM.
pub const PROCESSOR_ARCHITECTURE_ARM: u16 = 5;

/// Processor-architecture code: Itanium.
pub const PROCESSOR_ARCHITECTURE_IA64: u16 = 6;

/// Processor-architecture code: 64-bit Alpha.
pub const PROCESSOR_ARCHITECTURE_ALPHA64: u16 = 7;

/// Processor-architecture code: 64-bit x86.
pub const PROCESSOR_ARCHITECTURE_AMD64: u16 = 9;

/// Processor-architecture code: 64-bit ARM.
pub const PROCESSOR_ARCHITECTURE_ARM64: u16 = 12;

/// The native system information fields that architecture identification
/// reads: the processor-architecture code and the processor level.
#[allow(non_snake_case)]
#[derive(Clone, Copy, Debug, PartialEq, Eq, Structural)]
pub struct WinApiSystemInfo {
    /// Processor-architecture code.
    pub wProcessorArchitecture: u16,
    /// Architecture-dependent processor level.
    pub wProcessorLevel: u16,
}

impl WinApiSystemInfo {
    /// The processor-architecture code of this system information record.
    #[allow(non_snake_case)]
    pub fn wProcessorArchitecture(&self) -> (r: u16)
        ensures
            r == self.wProcessorArchitecture,
    {
        self.wProcessorArchitecture
    }
}

/// The machine name for a processor-architecture code, using the processor
/// level to tell the 32-bit x86 generations apart.
pub open spec fn spec_determine_machine(arch: u16, level: u16) -> Seq<char> {
    if arch == PROCESSOR_ARCHITECTURE_AMD64 {
        "x86_64"@
    } else if arch == PROCESSOR_ARCHITECTURE_INTEL {
        if level == 4 {
            "i486"@
        } else if level == 5 {
            "i586"@
        } else if level == 6 {
            "i686"@
        } else {
            "i386"@
        }
    } else if arch == PROCESSOR_ARCHITECTURE_IA64 {
        "ia64"@
    } else if arch == PROCESSOR_ARCHITECTURE_ARM {
        "arm"@
    } else if arch == PROCESSOR_ARCHITECTURE_ARM64 {
        "aarch64"@
    } else if arch == PROCESSOR_ARCHITECTURE_MIPS {
        "mips"@
    } else if arch == PROCESSOR_ARCHITECTURE_PPC {
        "powerpc"@
    } else if arch == PROCESSOR_ARCHITECTURE_ALPHA || arch == PROCESSOR_ARCHITECTURE_ALPHA64 {
        "alpha"@
    } else if arch == PROCESSOR_ARCHITECTURE_SHX {
        "superh"@
    } else {
        "unknown"@
    }
}

/// Derives the machine name from the native system information.
pub fn determine_machine(system_info: &WinApiSystemInfo) -> (r: String)
    ensures
        r@ == spec_determine_machine(
            system_info.wProcessorArchitecture,
            system_info.wProcessorLevel,
        ),
        valid_text(r@),
{
    proof {
        reveal_strlit("x86_64");
        reveal_strlit("i486");
        reveal_strlit("i586");
        reveal_strlit("i686");
        reveal_strlit("i386");
        reveal_strlit("ia64");
        reveal_strlit("arm");
        reveal_strlit("aarch64");
        reveal_strlit("mips");
        reveal_strlit("powerpc");
        reveal_strlit("alpha");
        reveal_strlit("superh");
        reveal_strlit("unknown");
    }
    let arch = system_info.wProcessorArchitecture();
    let name: &str = if arch == PROCESSOR_ARCHITECTURE_AMD64 {
        "x86_64"
    } else if arch == PROCESSOR_ARCHITECTURE_INTEL {
        let level = system_info.wProcessorLevel;
        if level == 4 {
            "i486"
        } else if level == 5 {
            "i586"
        } else if level == 6 {
            "i686"
        } else {
            "i386"
        }
    } else if arch == PROCESSOR_ARCHITECTURE_IA64 {
        "ia64"
    } else if arch == PROCESSOR_ARCHITECTURE_ARM {
        "arm"
    } else if arch == PROCESSOR_ARCHITECTURE_ARM64 {
        "aarch64"
    } else if arch == PROCESSOR_ARCHITECTURE_MIPS {
        "mips"
    } else if arch == PROCESSOR_ARCHITECTURE_PPC {
        "powerpc"
    } else if arch == PROCESSOR_ARCHITECTURE_ALPHA || arch == PROCESSOR_ARCHITECTURE_ALPHA64 {
        "alpha"
    } else if arch == PROCESSOR_ARCHITECTURE_SHX {
        "superh"
    } else {
        "unknown"
    };
    String::from_str(name)
}

/// The normalized processor name for a machine name: ARM variants collapse
/// to their family names, the x86 spellings collapse to their canonical
/// forms, and unrecognized names pass through unchanged.
pub open spec fn spec_map_processor(m: Seq<char>) -> Seq<char> {
    if m == "arm64"@ {
        "arm"@
    } else if m == "aarch64"@ {
        "aarch64"@
    } else if m == "x86_64"@ || m == "amd64"@ {
        "x86_64"@
    } else if m == "i386"@ || m == "i486"@ || m == "i586"@ || m == "i686"@ {
        "i686"@
    } else if m == "armv7l"@ || m == "armv6l"@ || m == "armv8l"@ {
        "arm"@
    } else {
        m
    }
}

/// Normalizes a machine name to the processor name the widely used uname
/// utility reports.
pub fn map_processor(machine: &str) -> (r: String)
    ensures
        r@ == spec_map_processor(machine@),
{
    if str_eq(machine, "arm64") {
        String::from_str("arm")
    } else if str_eq(machine, "aarch64") {
        String::from_str("aarch64")
    } else if str_eq(machine, "x86_64") || str_eq(machine, "amd64") {
        String::from_str("x86_64")
    } else if str_eq(machine, "i386") || str_eq(machine, "i486") || str_eq(machine, "i586")
        || str_eq(machine, "i686") {
        String::from_str("i686")
    } else if str_eq(machine, "armv7l") || str_eq(machine, "armv6l") || str_eq(machine, "armv8l") {
        String::from_str("arm")
    } else {
        String::from_str(machine)
    }
}

} // verus!
