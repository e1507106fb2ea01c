//! Latest stable game version: picking, from the service's ordered tag
//! listing, the first entry whose release-type label is "release".

use vstd::prelude::*;
use crate::error::ResolveError;
use crate::model::GameVersion;
use crate::model::SpecGameVersion;

verus! {

/// Whether a tag-listing entry is a stable release.
pub open spec fn is_release_entry(v: SpecGameVersion) -> bool {
    v.version_type == "release"@
}

/// `i` is the index of the first "release"-typed entry of the listing.
pub open spec fn first_release_at(s: Seq<SpecGameVersion>, i: int) -> bool {
    &&& 0 <= i < s.len()
    &&& is_release_entry(s[i])
    &&& forall|j: int| 0 <= j < i ==> !is_release_entry(#[trigger] s[j])
}

/// Picks the latest stable game version from the tag listing: the tag of
/// the first "release"-typed entry, in listing order, whatever stands
/// among or before the non-release entries.  A listing without any
/// release-typed entry is an explicit error, never a placeholder value.
pub fn latest_release_version(versions: &Vec<GameVersion>) -> (r: Result<
    String,
    ResolveError,
>)
    ensures
        match r {
            Ok(tag) => exists|i: int|
                #[trigger] first_release_at(versions.deep_view(), i) && tag@
                    == versions.deep_view()[i].version,
            Err(e) => e is NoStableRelease && forall|i: int|
                0 <= i < versions.deep_view().len() ==> !is_release_entry(
                    #[trigger] versions.deep_view()[i],
                ),
        },
{
    let ghost view_versions = versions.deep_view();
    let release_label: String = "release".to_owned();
    let mut i: usize = 0;
    while i < versions.len()
        invariant
            i <= versions.len(),
            view_versions == versions.deep_view(),
            release_label@ == "release"@,
            forall|j: int| 0 <= j < i ==> !is_release_entry(#[trigger] view_versions[j]),
        decreases versions.len() - i,
    {
        if versions[i].version_type == release_label {
            assert(first_release_at(view_versions, i as int));
            return Ok(versions[i].version.clone());
        }
        i += 1;
    }
    Err(ResolveError::NoStableRelease)
}

} // verus!
