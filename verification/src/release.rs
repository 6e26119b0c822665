//! Release metadata and the exact-match search for a platform asset.

use vstd::prelude::*;
use crate::strutil::concat3;

verus! {

/// One downloadable file attached to a release.
pub struct ReleaseAsset {
    pub name: String,
    pub download_url: String,
}

/// A tagged, versioned publication of the upstream tool, as reported by the
/// release-query collaborator: a version string and the attached assets.
pub struct Release {
    pub version: String,
    pub assets: Vec<ReleaseAsset>,
}

/// True when position `i` holds the first asset whose name is `name`.
pub open spec fn found_at(assets: Seq<ReleaseAsset>, name: Seq<char>, i: int) -> bool {
    &&& 0 <= i < assets.len()
    &&& assets[i].name@ == name
    &&& forall|j: int| 0 <= j < i ==> assets[j].name@ != name
}

/// The error reported when a release holds no asset of the wanted name.
/// It quotes the exact name that was searched for.
pub open spec fn missing_asset_message(name: Seq<char>) -> Seq<char> {
    "no asset found matching \""@ + name + "\""@
}

/// Finds the download URL of the first asset whose name equals `name`
/// exactly; fails, naming the missing asset, when no asset matches. There is
/// no fuzzy matching: a name differing in any character is not a match.
pub fn find_asset_url(assets: &Vec<ReleaseAsset>, name: &String) -> (r: Result<String, String>)
    ensures
        r is Ok <==> exists|i: int| 0 <= i < assets@.len() && assets@[i].name@ == name@,
        r is Ok ==> exists|i: int| found_at(assets@, name@, i) && r->Ok_0@ == assets@[i].download_url@,
        r is Err ==> r->Err_0@ == missing_asset_message(name@),
{
    let n = assets.len();
    let mut i: usize = 0;
    while i < n
        invariant
            n == assets@.len(),
            i <= n,
            forall|j: int| 0 <= j < i ==> assets@[j].name@ != name@,
        decreases n - i,
    {
        let asset = &assets[i];
        if asset.name == *name {
            proof {
                assert(found_at(assets@, name@, i as int));
            }
            return Ok(asset.download_url.clone());
        }
        i = i + 1;
    }
    Err(concat3("no asset found matching \"", name.as_str(), "\""))
}

} // verus!
