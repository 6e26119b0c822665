//! The install plan: where a release's package lives on disk and what must
//! be fetched when the binary is not yet present.
//!
//! Each release version `v` is unpacked under its own version directory
//! `clice-<v>`, which holds the extracted package directory `clice`, the
//! executable `clice/clice`, and the bundled resource directory
//! `clice/lib/clang/20`. Once the executable file exists on disk it is never
//! fetched again: the file's presence is the sole cache key across process
//! restarts.

use vstd::prelude::*;
use crate::platform::{Architecture, Os, asset_name_spec, expected_asset_name, unsupported_arch_message};
use crate::release::{Release, find_asset_url, found_at, missing_asset_message};
use crate::strutil::concat2;

verus! {

/// Everything the host-facing shim needs to install and launch one release:
/// the asset to fetch, the directory to unpack it into, and the paths the
/// unpacked package yields. All paths are relative to the extension's
/// working directory until the host resolves them.
#[derive(Debug)]
pub struct InstallPlan {
    pub asset_url: String,
    pub version_dir: String,
    pub binary_path: String,
    pub resource_dir: String,
}

/// The per-version install root: `clice-<version>`.
pub open spec fn version_dir_spec(version: Seq<char>) -> Seq<char> {
    "clice-"@ + version
}

/// The executable inside the extracted package: `clice-<version>/clice/clice`.
pub open spec fn binary_path_spec(version: Seq<char>) -> Seq<char> {
    version_dir_spec(version) + "/clice/clice"@
}

/// The bundled resource directory: `clice-<version>/clice/lib/clang/20`.
pub open spec fn resource_dir_spec(version: Seq<char>) -> Seq<char> {
    version_dir_spec(version) + "/clice/lib/clang/20"@
}

/// True when the plan carries exactly the paths of `version` and the given
/// download URL.
pub open spec fn plan_matches(plan: InstallPlan, version: Seq<char>, url: Seq<char>) -> bool {
    &&& plan.asset_url@ == url
    &&& plan.version_dir@ == version_dir_spec(version)
    &&& plan.binary_path@ == binary_path_spec(version)
    &&& plan.resource_dir@ == resource_dir_spec(version)
}

/// Builds the install plan for one release on one platform. Fails for the
/// unsupported 32-bit architecture before the release's assets are ever
/// consulted, and fails naming the missing asset when the release publishes
/// no build for this platform; both errors are terminal, with no fallback.
/// On success the plan points at the first asset whose name matches the
/// platform exactly, and at the version-scoped paths of the release.
pub fn make_install_plan(os: Os, arch: Architecture, release: &Release) -> (r: Result<
    InstallPlan,
    String,
>)
    ensures
        arch is X86 ==> r is Err && r->Err_0@ == unsupported_arch_message(),
        !(arch is X86) ==> {
            let name = asset_name_spec(os, arch);
            &&& (r is Ok <==> exists|i: int|
                0 <= i < release.assets@.len() && release.assets@[i].name@ == name)
            &&& (r is Ok ==> exists|i: int|
                found_at(release.assets@, name, i) && plan_matches(
                    r->Ok_0,
                    release.version@,
                    release.assets@[i].download_url@,
                ))
            &&& (r is Err ==> r->Err_0@ == missing_asset_message(name))
        },
{
    let asset_name = expected_asset_name(os, arch)?;
    let asset_url = find_asset_url(&release.assets, &asset_name)?;
    let version_dir = concat2("clice-", release.version.as_str());
    let binary_path = concat2(version_dir.as_str(), "/clice/clice");
    let resource_dir = concat2(version_dir.as_str(), "/clice/lib/clang/20");
    Ok(InstallPlan { asset_url, version_dir, binary_path, resource_dir })
}

/// What remains to be done once a plan is in hand, given whether the
/// executable file is already present on disk.
pub enum InstallStep {
    /// The executable already exists: nothing is fetched.
    AlreadyInstalled,
    /// The executable is absent: fetch the archive at `url` and unpack it
    /// into `dest_dir`.
    FetchArchive { url: String, dest_dir: String },
}

/// Decides whether the plan's archive must be fetched. A fetch happens
/// exactly when the executable file is not already present; a present file
/// is reused without any download.
pub fn plan_install_step(plan: &InstallPlan, binary_file_present: bool) -> (r: InstallStep)
    ensures
        binary_file_present <==> r is AlreadyInstalled,
        !binary_file_present ==> (r matches InstallStep::FetchArchive { url, dest_dir }
            && url@ == plan.asset_url@ && dest_dir@ == plan.version_dir@),
{
    if binary_file_present {
        InstallStep::AlreadyInstalled
    } else {
        InstallStep::FetchArchive {
            url: plan.asset_url.clone(),
            dest_dir: plan.version_dir.clone(),
        }
    }
}

} // verus!
