//! Release resolution: picking, from a project's release list (newest
//! first), the first release that supports the requested game version and
//! loader and carries a package file, and carrying its dependency
//! references over into the resolved download.

use vstd::prelude::*;
use vstd::string::StrSliceExecFns;
use crate::error::ResolveError;
use crate::model::Dependency;
use crate::model::DependencyRef;
use crate::model::Link;
use crate::model::ReleaseCandidate;
use crate::model::ReleaseFile;
use crate::model::SpecDependency;
use crate::model::SpecDependencyRef;
use crate::model::SpecLink;
use crate::model::SpecReleaseCandidate;
use crate::model::SpecReleaseFile;

verus! {

/// Whether a list of strings holds `x`.
pub open spec fn seq_contains_string(s: Seq<Seq<char>>, x: Seq<char>) -> bool {
    exists|i: int| 0 <= i < s.len() && s[i] == x
}

/// A release is eligible when its supported-version list holds the
/// requested version and its loader list holds the requested loader.
pub open spec fn release_matches(
    r: SpecReleaseCandidate,
    version: Seq<char>,
    loader: Seq<char>,
) -> bool {
    seq_contains_string(r.game_versions, version) && seq_contains_string(r.loaders, loader)
}

/// The mod-package file extension.
pub open spec fn jar_suffix() -> Seq<char> {
    seq!['.', 'j', 'a', 'r']
}

/// Whether a file name ends in the mod-package file extension.
pub open spec fn is_jar_name(name: Seq<char>) -> bool {
    name.len() >= 4 && name.subrange(name.len() - 4, name.len() as int) == jar_suffix()
}

/// `k` is the index of the first package file of the list.
pub open spec fn first_jar_at(files: Seq<SpecReleaseFile>, k: int) -> bool {
    &&& 0 <= k < files.len()
    &&& is_jar_name(files[k].filename)
    &&& forall|j: int| 0 <= j < k ==> !is_jar_name(#[trigger] files[j].filename)
}

/// Whether some file of the list is a package file.
pub open spec fn has_jar(files: Seq<SpecReleaseFile>) -> bool {
    exists|k: int| 0 <= k < files.len() && is_jar_name(files[k].filename)
}

/// A release can actually be downloaded for the request: it is eligible
/// and at least one of its files is a package file.
pub open spec fn downloadable(
    r: SpecReleaseCandidate,
    version: Seq<char>,
    loader: Seq<char>,
) -> bool {
    release_matches(r, version, loader) && has_jar(r.files)
}

/// `i` is the index of the newest downloadable release: releases come
/// newest first, and every earlier entry is skipped only because it is
/// not downloadable for the request.
pub open spec fn chosen_release_at(
    rs: Seq<SpecReleaseCandidate>,
    version: Seq<char>,
    loader: Seq<char>,
    i: int,
) -> bool {
    &&& 0 <= i < rs.len()
    &&& downloadable(rs[i], version, loader)
    &&& forall|j: int| 0 <= j < i ==> !downloadable(#[trigger] rs[j], version, loader)
}

/// The dependencies kept from a declared list: entries with a project id,
/// in declaration order, each reduced to id and type label.
pub open spec fn dep_links(deps: Seq<SpecDependencyRef>) -> Seq<SpecDependency>
    decreases deps.len(),
{
    if deps.len() == 0 {
        Seq::empty()
    } else {
        let front = dep_links(deps.drop_last());
        match deps.last().project_id {
            Some(id) => front.push(
                SpecDependency { project_id: id, dependency_type: deps.last().dependency_type },
            ),
            None => front,
        }
    }
}

/// The dependencies the resolved download carries for a release: an
/// absent declaration list counts as empty.
pub open spec fn link_deps_of(r: SpecReleaseCandidate) -> Seq<SpecDependency> {
    match r.dependencies {
        Some(ds) => dep_links(ds),
        None => Seq::empty(),
    }
}

/// The download resolved from release `r` through its file at index `k`.
pub open spec fn link_of(r: SpecReleaseCandidate, k: int) -> SpecLink {
    SpecLink {
        url: r.files[k].url,
        filename: r.files[k].filename,
        dependencies: link_deps_of(r),
    }
}

/// How many declared dependency entries carry a project id.
pub open spec fn count_with_project_id(deps: Seq<SpecDependencyRef>) -> nat
    decreases deps.len(),
{
    if deps.len() == 0 {
        0
    } else {
        count_with_project_id(deps.drop_last()) + if deps.last().project_id is Some {
            1nat
        } else {
            0nat
        }
    }
}

/// A release that matches the request but carries no package file is
/// skipped, not an error: with two releases, the newer matching but
/// without a package file and the older matching with one, the chosen
/// release is the older one.
pub proof fn lemma_skips_release_without_package(
    rs: Seq<SpecReleaseCandidate>,
    version: Seq<char>,
    loader: Seq<char>,
)
    requires
        rs.len() == 2,
        release_matches(rs[0], version, loader),
        !has_jar(rs[0].files),
        release_matches(rs[1], version, loader),
        has_jar(rs[1].files),
    ensures
        chosen_release_at(rs, version, loader, 1),
{
}

/// A release whose dependency list is absent resolves to a download with
/// no dependencies, not an error.
pub proof fn lemma_absent_dependencies_empty(r: SpecReleaseCandidate)
    requires
        r.dependencies is None,
    ensures
        link_deps_of(r) == Seq::<SpecDependency>::empty(),
{
}

/// Exactly the declared entries with a project id are kept: the number of
/// resolved dependencies equals the number of input entries whose project
/// id is present.
pub proof fn lemma_dependency_count(deps: Seq<SpecDependencyRef>)
    ensures
        dep_links(deps).len() == count_with_project_id(deps),
    decreases deps.len(),
{
    if deps.len() > 0 {
        lemma_dependency_count(deps.drop_last());
    }
}

/// Whether `list` holds `target`, by string value.
fn contains_string(list: &Vec<String>, target: &String) -> (r: bool)
    ensures
        r == seq_contains_string(list.deep_view(), target@),
{
    let ghost view_list = list.deep_view();
    let mut i: usize = 0;
    while i < list.len()
        invariant
            i <= list.len(),
            view_list == list.deep_view(),
            forall|j: int| 0 <= j < i ==> view_list[j] != target@,
        decreases list.len() - i,
    {
        if list[i] == *target {
            assert(view_list[i as int] == target@);
            return true;
        }
        i += 1;
    }
    false
}

/// Whether a file name ends in the mod-package file extension.
pub fn is_jar_file_name(name: &str) -> (r: bool)
    ensures
        r == is_jar_name(name@),
{
    let n = name.unicode_len();
    if n < 4 {
        return false;
    }
    let r = name.get_char(n - 4) == '.' && name.get_char(n - 3) == 'j' && name.get_char(n - 2)
        == 'a' && name.get_char(n - 1) == 'r';
    proof {
        let tail = name@.subrange(n - 4, n as int);
        if r {
            assert(tail =~= jar_suffix());
        } else {
            if tail == jar_suffix() {
                assert(name@[n - 4] == tail[0]);
                assert(name@[n - 3] == tail[1]);
                assert(name@[n - 2] == tail[2]);
                assert(name@[n - 1] == tail[3]);
            }
        }
    }
    r
}

/// The first package file of the list, if any.
fn first_jar(files: &Vec<ReleaseFile>) -> (r: Option<usize>)
    ensures
        match r {
            Some(k) => first_jar_at(files.deep_view(), k as int),
            None => !has_jar(files.deep_view()),
        },
{
    let ghost view_files = files.deep_view();
    let mut i: usize = 0;
    while i < files.len()
        invariant
            i <= files.len(),
            view_files == files.deep_view(),
            forall|j: int| 0 <= j < i ==> !is_jar_name(#[trigger] view_files[j].filename),
        decreases files.len() - i,
    {
        if is_jar_file_name(files[i].filename.as_str()) {
            return Some(i);
        }
        i += 1;
    }
    None
}

/// Keeps the dependency references that carry a project id, in order.
pub fn filter_dependencies(deps: &Vec<DependencyRef>) -> (r: Vec<Dependency>)
    ensures
        r.deep_view() == dep_links(deps.deep_view()),
{
    let ghost view_deps = deps.deep_view();
    let mut out: Vec<Dependency> = Vec::new();
    let mut i: usize = 0;
    while i < deps.len()
        invariant
            i <= deps.len(),
            view_deps == deps.deep_view(),
            out.deep_view() == dep_links(view_deps.take(i as int)),
        decreases deps.len() - i,
    {
        proof {
            assert(view_deps.take(i as int + 1).drop_last() =~= view_deps.take(i as int));
            assert(view_deps.take(i as int + 1).last() == view_deps[i as int]);
        }
        match &deps[i].project_id {
            Some(id) => {
                out.push(
                    Dependency {
                        project_id: id.clone(),
                        dependency_type: deps[i].dependency_type.clone(),
                    },
                );
                proof {
                    assert(out.deep_view() =~= dep_links(view_deps.take(i as int + 1)));
                }
            },
            None => {
                proof {
                    assert(out.deep_view() =~= dep_links(view_deps.take(i as int + 1)));
                }
            },
        }
        i += 1;
    }
    proof {
        assert(view_deps.take(deps.len() as int) =~= view_deps);
    }
    out
}

/// Resolves the download for a project's release list (newest first):
/// returns the first release that supports the requested version and
/// loader and holds a package file, reduced to that file's URL and name
/// and the release's kept dependencies.  A matching release without a
/// package file is skipped, not an error; only a list with no
/// downloadable release at all fails.
pub fn resolve_download(
    releases: &Vec<ReleaseCandidate>,
    version: &String,
    loader: &String,
) -> (r: Result<Link, ResolveError>)
    ensures
        match r {
            Ok(link) => exists|i: int|
                #[trigger] chosen_release_at(releases.deep_view(), version@, loader@, i)
                    && exists|k: int|
                    first_jar_at(releases.deep_view()[i].files, k) && link@ == link_of(
                        releases.deep_view()[i],
                        k,
                    ),
            Err(e) => e is NoDownloadablePackage && forall|i: int|
                0 <= i < releases.deep_view().len() ==> !downloadable(
                    #[trigger] releases.deep_view()[i],
                    version@,
                    loader@,
                ),
        },
{
    let ghost view_releases = releases.deep_view();
    let mut i: usize = 0;
    while i < releases.len()
        invariant
            i <= releases.len(),
            view_releases == releases.deep_view(),
            forall|j: int| 0 <= j < i ==> !downloadable(
                #[trigger] view_releases[j],
                version@,
                loader@,
            ),
        decreases releases.len() - i,
    {
        let release = &releases[i];
        let eligible = contains_string(&release.game_versions, version) && contains_string(
            &release.loaders,
            loader,
        );
        if eligible {
            match first_jar(&release.files) {
                Some(k) => {
                    let file = &release.files[k];
                    let dependencies = match &release.dependencies {
                        Some(ds) => filter_dependencies(ds),
                        None => Vec::new(),
                    };
                    let link = Link {
                        url: file.url.clone(),
                        filename: file.filename.clone(),
                        dependencies,
                    };
                    proof {
                        assert(chosen_release_at(view_releases, version@, loader@, i as int));
                        assert(link@.dependencies =~= link_deps_of(view_releases[i as int]));
                        assert(first_jar_at(view_releases[i as int].files, k as int));
                        assert(link@ == link_of(view_releases[i as int], k as int));
                    }
                    return Ok(link);
                },
                None => {
                    // Eligible but no package file: skip and keep looking.
                    assert(!downloadable(view_releases[i as int], version@, loader@));
                },
            }
        }
        i += 1;
    }
    Err(ResolveError::NoDownloadablePackage)
}

} // verus!
