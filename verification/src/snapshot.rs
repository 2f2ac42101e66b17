//! The immutable platform snapshot: six text fields fixed at construction,
//! with the invariant that every field is non-empty printable text.

use vstd::prelude::*;

use crate::arch::{determine_machine, spec_determine_machine, spec_map_processor, map_processor,
    WinApiSystemInfo};
use crate::text::{lemma_printable_concat, printable, starts_with, valid_text};
use crate::winos::WinOsVersionInfo;

verus! {

/// The compile-time classification of the host platform, injected by the
/// caller at snapshot construction; it selects the static host-OS label.
#[derive(Clone, Copy, Debug, PartialEq, Eq, Structural)]
pub enum HostPlatform {
    /// Linux with the GNU environment.
    LinuxGnu,
    /// Linux with a non-GNU environment.
    LinuxOther,
    /// Android.
    Android,
    /// Windows.
    Windows,
    /// FreeBSD.
    FreeBsd,
    /// NetBSD.
    NetBsd,
    /// OpenBSD.
    OpenBsd,
    /// An Apple system.
    Apple,
    /// Fuchsia.
    Fuchsia,
    /// Redox.
    Redox,
    /// illumos.
    Illumos,
    /// Solaris.
    Solaris,
    /// Cygwin.
    Cygwin,
    /// An unrecognized platform.
    Unknown,
}

/// The static host-OS label of a platform.
pub open spec fn spec_host_os_label(platform: HostPlatform) -> Seq<char> {
    match platform {
        HostPlatform::LinuxGnu => "GNU/Linux"@,
        HostPlatform::LinuxOther => "Linux"@,
        HostPlatform::Android => "Android"@,
        HostPlatform::Windows => "MS/Windows"@,
        HostPlatform::FreeBsd => "FreeBSD"@,
        HostPlatform::NetBsd => "NetBSD"@,
        HostPlatform::OpenBsd => "OpenBSD"@,
        HostPlatform::Apple => "Darwin"@,
        HostPlatform::Fuchsia => "Fuchsia"@,
        HostPlatform::Redox => "Redox"@,
        HostPlatform::Illumos => "illumos"@,
        HostPlatform::Solaris => "solaris"@,
        HostPlatform::Cygwin => "Cygwin"@,
        HostPlatform::Unknown => "unknown"@,
    }
}

/// A host-OS label is always non-empty printable text.
pub proof fn lemma_host_os_label_valid(platform: HostPlatform)
    ensures
        valid_text(spec_host_os_label(platform)),
{
    reveal_strlit("GNU/Linux");
    reveal_strlit("Linux");
    reveal_strlit("Android");
    reveal_strlit("MS/Windows");
    reveal_strlit("FreeBSD");
    reveal_strlit("NetBSD");
    reveal_strlit("OpenBSD");
    reveal_strlit("Darwin");
    reveal_strlit("Fuchsia");
    reveal_strlit("Redox");
    reveal_strlit("illumos");
    reveal_strlit("solaris");
    reveal_strlit("Cygwin");
    reveal_strlit("unknown");
}

/// The static host-OS label of a platform.
pub fn host_os_label(platform: HostPlatform) -> (r: &'static str)
    ensures
        r@ == spec_host_os_label(platform),
{
    match platform {
        HostPlatform::LinuxGnu => "GNU/Linux",
        HostPlatform::LinuxOther => "Linux",
        HostPlatform::Android => "Android",
        HostPlatform::Windows => "MS/Windows",
        HostPlatform::FreeBsd => "FreeBSD",
        HostPlatform::NetBsd => "NetBSD",
        HostPlatform::OpenBsd => "OpenBSD",
        HostPlatform::Apple => "Darwin",
        HostPlatform::Fuchsia => "Fuchsia",
        HostPlatform::Redox => "Redox",
        HostPlatform::Illumos => "illumos",
        HostPlatform::Solaris => "solaris",
        HostPlatform::Cygwin => "Cygwin",
        HostPlatform::Unknown => "unknown",
    }
}

/// The abstract value of a snapshot: its six text fields.
pub struct PlatformInfoView {
    /// Kernel/OS family identifier.
    pub sysname: Seq<char>,
    /// Network host name.
    pub nodename: Seq<char>,
    /// OS release identifier.
    pub release: Seq<char>,
    /// Build/version identifier.
    pub version: Seq<char>,
    /// Hardware architecture identifier.
    pub machine: Seq<char>,
    /// Human-oriented OS label.
    pub osname: Seq<char>,
}

impl PlatformInfoView {
    /// Every field is non-empty printable text.
    pub open spec fn wf(self) -> bool {
        valid_text(self.sysname) && valid_text(self.nodename) && valid_text(self.release)
            && valid_text(self.version) && valid_text(self.machine) && valid_text(self.osname)
    }
}

/// An immutable snapshot of the platform's identity, created once and never
/// recomputed; every accessor borrows from the cached fields.
#[derive(Debug)]
pub struct PlatformInfo {
    sysname: String,
    nodename: String,
    release: String,
    version: String,
    machine: String,
    osname: String,
}

impl View for PlatformInfo {
    type V = PlatformInfoView;

    closed spec fn view(&self) -> PlatformInfoView {
        PlatformInfoView {
            sysname: self.sysname@,
            nodename: self.nodename@,
            release: self.release@,
            version: self.version@,
            machine: self.machine@,
            osname: self.osname@,
        }
    }
}

/// The osname text of a Windows snapshot: the host-OS label followed by the
/// friendly OS name in parentheses.
pub open spec fn spec_windows_osname(platform: HostPlatform, os_name: Seq<char>) -> Seq<char> {
    spec_host_os_label(platform) + " ("@ + os_name + ")"@
}

/// OS label law: a Windows osname starts with the platform's static
/// host-OS label.
pub proof fn lemma_windows_osname_starts_with_label(platform: HostPlatform, os_name: Seq<char>)
    ensures
        starts_with(spec_windows_osname(platform, os_name), spec_host_os_label(platform)),
{
    let label = spec_host_os_label(platform);
    assert(spec_windows_osname(platform, os_name).take(label.len() as int) =~= label);
}

/// A Windows osname is non-empty printable text whenever the friendly OS
/// name it embeds is printable.
pub proof fn lemma_windows_osname_valid(platform: HostPlatform, os_name: Seq<char>)
    requires
        printable(os_name),
    ensures
        valid_text(spec_windows_osname(platform, os_name)),
{
    lemma_host_os_label_valid(platform);
    reveal_strlit(" (");
    reveal_strlit(")");
    let label = spec_host_os_label(platform);
    lemma_printable_concat(label, " ("@);
    lemma_printable_concat(label + " ("@, os_name);
    lemma_printable_concat(label + " ("@ + os_name, ")"@);
}

/// The kernel-family identifier of every modern Windows system.
pub fn determine_sysname() -> (r: String)
    ensures
        r@ == "Windows_NT"@,
{
    String::from_str("Windows_NT")
}

/// Composes the human-oriented OS label of a Windows snapshot: the host-OS
/// label followed by the resolved friendly OS name in parentheses.
pub fn determine_osname(platform: HostPlatform, version_info: &WinOsVersionInfo) -> (r: String)
    ensures
        r@ == spec_windows_osname(platform, version_info.os_name@),
{
    let mut osname = String::from_str(host_os_label(platform));
    osname.append(" (");
    osname.append(version_info.os_name.as_str());
    osname.append(")");
    proof {
        assert(osname@ =~= spec_windows_osname(platform, version_info.os_name@));
    }
    osname
}

impl PlatformInfo {
    /// The snapshot invariant: every field is non-empty printable text.
    pub open spec fn wf(&self) -> bool {
        self@.wf()
    }

    /// Builds the snapshot of a POSIX-like platform from the fields the
    /// platform's single identification call reported, with the osname fixed
    /// to the platform's static host-OS label.
    pub fn from_uname_parts(
        platform: HostPlatform,
        sysname: String,
        nodename: String,
        release: String,
        version: String,
        machine: String,
    ) -> (r: PlatformInfo)
        requires
            valid_text(sysname@),
            valid_text(nodename@),
            valid_text(release@),
            valid_text(version@),
            valid_text(machine@),
        ensures
            r@.sysname == sysname@,
            r@.nodename == nodename@,
            r@.release == release@,
            r@.version == version@,
            r@.machine == machine@,
            r@.osname == spec_host_os_label(platform),
            starts_with(r@.osname, spec_host_os_label(platform)),
            r.wf(),
    {
        proof {
            lemma_host_os_label_valid(platform);
            assert(spec_host_os_label(platform).take(spec_host_os_label(platform).len() as int)
                =~= spec_host_os_label(platform));
        }
        let osname = String::from_str(host_os_label(platform));
        PlatformInfo { sysname, nodename, release, version, machine, osname }
    }

    /// Builds the snapshot of a Windows platform from the queried computer
    /// name, the native system information, and the resolved version
    /// information.
    pub fn from_windows_parts(
        platform: HostPlatform,
        computer_name: String,
        system_info: &WinApiSystemInfo,
        version_info: &WinOsVersionInfo,
    ) -> (r: PlatformInfo)
        requires
            valid_text(computer_name@),
            version_info.wf(),
        ensures
            r@.sysname == "Windows_NT"@,
            r@.nodename == computer_name@,
            r@.release == version_info.release@,
            r@.version == version_info.version@,
            r@.machine == spec_determine_machine(
                system_info.wProcessorArchitecture,
                system_info.wProcessorLevel,
            ),
            r@.osname == spec_windows_osname(platform, version_info.os_name@),
            starts_with(r@.osname, spec_host_os_label(platform)),
            r.wf(),
    {
        proof {
            reveal_strlit("Windows_NT");
            lemma_windows_osname_valid(platform, version_info.os_name@);
            lemma_windows_osname_starts_with_label(platform, version_info.os_name@);
        }
        let osname = determine_osname(platform, version_info);
        PlatformInfo {
            sysname: determine_sysname(),
            nodename: computer_name,
            release: version_info.release.clone(),
            version: version_info.version.clone(),
            machine: determine_machine(system_info),
            osname,
        }
    }

    /// Builds the snapshot of an unrecognized platform: every field is the
    /// constant placeholder, and construction cannot fail.
    pub fn new_unknown() -> (r: PlatformInfo)
        ensures
            r@.sysname == "unknown"@,
            r@.nodename == "unknown"@,
            r@.release == "unknown"@,
            r@.version == "unknown"@,
            r@.machine == "unknown"@,
            r@.osname == "unknown"@,
            r.wf(),
    {
        proof {
            reveal_strlit("unknown");
        }
        PlatformInfo {
            sysname: String::from_str("unknown"),
            nodename: String::from_str("unknown"),
            release: String::from_str("unknown"),
            version: String::from_str("unknown"),
            machine: String::from_str("unknown"),
            osname: String::from_str("unknown"),
        }
    }

    /// The name of this implementation of the operating system.
    pub fn sysname(&self) -> (r: &str)
        ensures
            r@ == self@.sysname,
    {
        self.sysname.as_str()
    }

    /// The network node hostname of this machine.
    pub fn nodename(&self) -> (r: &str)
        ensures
            r@ == self@.nodename,
    {
        self.nodename.as_str()
    }

    /// The current release level of the operating system.
    pub fn release(&self) -> (r: &str)
        ensures
            r@ == self@.release,
    {
        self.release.as_str()
    }

    /// The current version level of the current release.
    pub fn version(&self) -> (r: &str)
        ensures
            r@ == self@.version,
    {
        self.version.as_str()
    }

    /// The name of the current system's hardware.
    pub fn machine(&self) -> (r: &str)
        ensures
            r@ == self@.machine,
    {
        self.machine.as_str()
    }

    /// The name of the current OS.
    pub fn osname(&self) -> (r: &str)
        ensures
            r@ == self@.osname,
    {
        self.osname.as_str()
    }

    /// The normalized processor name derived from the machine field.
    pub fn processor(&self) -> (r: String)
        ensures
            r@ == spec_map_processor(self@.machine),
    {
        map_processor(self.machine.as_str())
    }
}

impl Clone for PlatformInfo {
    /// Copy fidelity: a clone carries exactly the same six fields.
    fn clone(&self) -> (r: Self)
        ensures
            r == *self,
    {
        PlatformInfo {
            sysname: self.sysname.clone(),
            nodename: self.nodename.clone(),
            release: self.release.clone(),
            version: self.version.clone(),
            machine: self.machine.clone(),
            osname: self.osname.clone(),
        }
    }
}

impl PartialEq for PlatformInfo {
    fn eq(&self, other: &Self) -> (r: bool) {
        self.sysname == other.sysname && self.nodename == other.nodename && self.release
            == other.release && self.version == other.version && self.machine == other.machine
            && self.osname == other.osname
    }
}

impl Eq for PlatformInfo {}

impl vstd::std_specs::cmp::PartialEqSpecImpl for PlatformInfo {
    open spec fn obeys_eq_spec() -> bool {
        true
    }

    open spec fn eq_spec(&self, other: &PlatformInfo) -> bool {
        self@ == other@
    }
}

/// Copy fidelity law: two snapshots that are equal as values compare equal
/// under the snapshot's equality, so a clone compares equal to its source.
pub proof fn lemma_clone_compares_equal(a: &PlatformInfo, b: &PlatformInfo)
    requires
        a == b,
    ensures
        vstd::std_specs::cmp::PartialEqSpec::eq_spec(a, b),
{
}

/// Printable-content law: every well-formed snapshot's six fields are
/// non-empty and contain no control characters.
pub proof fn lemma_snapshot_fields_printable(info: &PlatformInfo)
    requires
        info.wf(),
    ensures
        valid_text(info@.sysname),
        valid_text(info@.nodename),
        valid_text(info@.release),
        valid_text(info@.version),
        valid_text(info@.machine),
        valid_text(info@.osname),
{
}

} // verus!
