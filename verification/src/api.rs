//! The service's request surface: endpoint URLs and the shared client
//! settings.  The URLs must match the hosting service exactly; building
//! them here pins them down for the unverified shell that sends the
//! requests.

use vstd::prelude::*;
use vstd::string::StringExecFns;

verus! {

/// Per-request timeout, in seconds, of the shared HTTP client.
pub const REQUEST_TIMEOUT_SECS: u64 = 9;

/// URL of the game-version tag listing.
pub fn game_version_tag_url() -> (r: String)
    ensures
        r@ == "https://api.modrinth.com/v2/tag/game_version"@,
{
    "https://api.modrinth.com/v2/tag/game_version".to_owned()
}

/// URL of the project search endpoint.
pub fn search_url() -> (r: String)
    ensures
        r@ == "https://api.modrinth.com/v2/search"@,
{
    "https://api.modrinth.com/v2/search".to_owned()
}

/// URL of a project's release listing.
pub fn project_versions_url(project_id: &str) -> (r: String)
    ensures
        r@ == "https://api.modrinth.com/v2/project/"@ + project_id@ + "/version"@,
{
    let mut s = "https://api.modrinth.com/v2/project/".to_owned();
    s.append(project_id);
    s.append("/version");
    proof {
        assert(s@ =~= "https://api.modrinth.com/v2/project/"@ + project_id@ + "/version"@);
    }
    s
}

/// URL of a project's metadata, used to name a dependency.
pub fn project_url(project_id: &str) -> (r: String)
    ensures
        r@ == "https://api.modrinth.com/v2/project/"@ + project_id@,
{
    let mut s = "https://api.modrinth.com/v2/project/".to_owned();
    s.append(project_id);
    s
}

} // verus!
