//! Project search: the facet expression the search request carries, and
//! the terminal condition on an empty hit list.

use vstd::prelude::*;
use vstd::string::StringExecFns;
use crate::error::ResolveError;
use crate::model::Project;

verus! {

/// The facet expression for a version/loader pair: two single-element
/// OR-groups, ANDed by the service (outer list is AND across groups).
pub open spec fn spec_search_facets(version: Seq<char>, loader: Seq<char>) -> Seq<char> {
    "[[\"versions:"@ + version + "\"], [\"categories:"@ + loader + "\"]]"@
}

/// Builds the facet expression constraining a search to mods that support
/// `version` and `loader`.
pub fn search_facets(version: &str, loader: &str) -> (r: String)
    ensures
        r@ == spec_search_facets(version@, loader@),
{
    let mut s = "[[\"versions:".to_owned();
    s.append(version);
    s.append("\"], [\"categories:");
    s.append(loader);
    s.append("\"]]");
    proof {
        assert(s@ =~= spec_search_facets(version@, loader@));
    }
    s
}

/// An empty hit list is a valid response but a terminal condition for the
/// run: reports it as the explicit "no matching projects" error, naming
/// the requested game version.
pub fn ensure_projects_found(projects: &Vec<Project>, version: &String) -> (r: Result<
    (),
    ResolveError,
>)
    ensures
        r is Ok <==> projects@.len() > 0,
        r matches Err(e) ==> e matches ResolveError::NoMatchingProjects { version: v } && v@
            == version@,
{
    if projects.is_empty() {
        Err(ResolveError::NoMatchingProjects { version: version.clone() })
    } else {
        Ok(())
    }
}

} // verus!
