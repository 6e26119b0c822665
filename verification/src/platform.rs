//! Platform identity and the mapping from platform to release-asset name.
//!
//! The upstream project publishes one archive per (architecture, operating
//! system) pair, named `clice-<arch>-<os>.tar.gz`. The architecture tag is
//! one of `x86_64` or `aarch64`; the 32-bit x86 variant has no published
//! build and is rejected outright, with no fallback, so that a wrong asset
//! name is never produced.

use vstd::prelude::*;
use crate::strutil::concat2;

verus! {

/// Operating system reported by the host, as a closed set of variants.
#[derive(Clone, Copy, PartialEq, Eq, Structural, Debug)]
pub enum Os {
    Mac,
    Linux,
    Windows,
}

/// CPU architecture reported by the host, as a closed set of variants.
#[derive(Clone, Copy, PartialEq, Eq, Structural, Debug)]
pub enum Architecture {
    Aarch64,
    X86,
    X8664,
}

/// The architecture tag that appears in a published asset name.
/// `X86` has no tag: no asset is published for it.
pub open spec fn arch_tag(arch: Architecture) -> Seq<char> {
    match arch {
        Architecture::X8664 => "x86_64"@,
        Architecture::Aarch64 => "aarch64"@,
        Architecture::X86 => Seq::<char>::empty(),
    }
}

/// The operating-system tag that appears in a published asset name.
pub open spec fn os_tag(os: Os) -> Seq<char> {
    match os {
        Os::Windows => "windows-msvc"@,
        Os::Linux => "linux-gnu"@,
        Os::Mac => "macos-darwin"@,
    }
}

/// The full asset file name expected for a supported platform:
/// `clice-<arch>-<os>.tar.gz`.
pub open spec fn asset_name_spec(os: Os, arch: Architecture) -> Seq<char> {
    "clice-"@ + arch_tag(arch) + "-"@ + os_tag(os) + ".tar.gz"@
}

/// The error reported for the unsupported 32-bit architecture. It names the
/// offending architecture tag.
pub open spec fn unsupported_arch_message() -> Seq<char> {
    "unsupported architecture: X86"@
}

/// Computes the asset file name to look for in a release, or fails for the
/// unsupported 32-bit architecture. The failure needs nothing beyond the
/// platform identity: no release data is consulted.
pub fn expected_asset_name(os: Os, arch: Architecture) -> (r: Result<String, String>)
    ensures
        arch is X86 <==> r is Err,
        r is Err ==> r->Err_0@ == unsupported_arch_message(),
        r is Ok ==> r->Ok_0@ == asset_name_spec(os, arch),
{
    let arch_str: &str = match arch {
        Architecture::X8664 => "x86_64",
        Architecture::Aarch64 => "aarch64",
        Architecture::X86 => {
            return Err("unsupported architecture: X86".to_owned());
        },
    };
    let os_str: &str = match os {
        Os::Windows => "windows-msvc",
        Os::Linux => "linux-gnu",
        Os::Mac => "macos-darwin",
    };
    let with_arch = concat2("clice-", arch_str);
    let with_os = concat2(with_arch.as_str(), concat2("-", os_str).as_str());
    let name = concat2(with_os.as_str(), ".tar.gz");
    Ok(name)
}

} // verus!
