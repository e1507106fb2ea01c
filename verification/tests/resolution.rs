use caulk::model::DependencyRef;
use caulk::model::GameVersion;
use caulk::model::Project;
use caulk::model::ReleaseCandidate;
use caulk::model::ReleaseFile;
use caulk::release::filter_dependencies;
use caulk::release::is_jar_file_name;
use caulk::release::resolve_download;
use caulk::search::ensure_projects_found;
use caulk::version::latest_release_version;
use caulk::ResolveError;

fn game_version(version: &str, version_type: &str) -> GameVersion {
    GameVersion {
        version: version.to_string(),
        version_type: version_type.to_string(),
    }
}

fn release_file(url: &str, filename: &str) -> ReleaseFile {
    ReleaseFile {
        url: url.to_string(),
        filename: filename.to_string(),
    }
}

fn dependency_ref(project_id: Option<&str>, dependency_type: &str) -> DependencyRef {
    DependencyRef {
        project_id: project_id.map(|s| s.to_string()),
        dependency_type: dependency_type.to_string(),
    }
}

fn release(
    game_versions: &[&str],
    loaders: &[&str],
    files: Vec<ReleaseFile>,
    dependencies: Option<Vec<DependencyRef>>,
) -> ReleaseCandidate {
    ReleaseCandidate {
        game_versions: game_versions.iter().map(|s| s.to_string()).collect(),
        loaders: loaders.iter().map(|s| s.to_string()).collect(),
        files,
        dependencies,
    }
}

#[test]
fn latest_release_skips_leading_snapshots() {
    let versions = vec![
        game_version("23w31a", "snapshot"),
        game_version("1.20.2-pre1", "snapshot"),
        game_version("1.20.1", "release"),
        game_version("1.20", "release"),
    ];
    let tag = latest_release_version(&versions).unwrap();
    assert_eq!(tag, "1.20.1");
}

#[test]
fn latest_release_takes_first_entry_when_it_is_a_release() {
    let versions = vec![
        game_version("1.20.1", "release"),
        game_version("23w31a", "snapshot"),
    ];
    let tag = latest_release_version(&versions).unwrap();
    assert_eq!(tag, "1.20.1");
}

#[test]
fn latest_release_fails_without_any_release_entry() {
    let versions = vec![
        game_version("23w31a", "snapshot"),
        game_version("1.20.2-rc1", "beta"),
    ];
    let err = latest_release_version(&versions).unwrap_err();
    assert!(matches!(err, ResolveError::NoStableRelease));
    assert_eq!(err.message(), "no stable release version found");
}

#[test]
fn latest_release_fails_on_empty_listing() {
    let err = latest_release_version(&Vec::new()).unwrap_err();
    assert_eq!(err.message(), "no stable release version found");
}

#[test]
fn resolve_skips_matching_release_without_package_file() {
    // The newer release matches the request but has no .jar file; the
    // older one carries the package. Resolution continues to the older.
    let releases = vec![
        release(
            &["1.20.1"],
            &["fabric"],
            vec![release_file("https://cdn.example/r1.zip", "sources.zip")],
            None,
        ),
        release(
            &["1.20.1"],
            &["fabric"],
            vec![release_file("https://cdn.example/r2.jar", "mod-1.0.jar")],
            None,
        ),
    ];
    let link = resolve_download(&releases, &"1.20.1".to_string(), &"fabric".to_string()).unwrap();
    assert_eq!(link.filename, "mod-1.0.jar");
    assert_eq!(link.url, "https://cdn.example/r2.jar");
}

#[test]
fn resolve_prefers_newest_matching_release() {
    let releases = vec![
        release(
            &["1.20.1", "1.20"],
            &["fabric", "quilt"],
            vec![release_file("https://cdn.example/new.jar", "mod-2.0.jar")],
            None,
        ),
        release(
            &["1.20.1"],
            &["fabric"],
            vec![release_file("https://cdn.example/old.jar", "mod-1.0.jar")],
            None,
        ),
    ];
    let link = resolve_download(&releases, &"1.20.1".to_string(), &"fabric".to_string()).unwrap();
    assert_eq!(link.filename, "mod-2.0.jar");
}

#[test]
fn resolve_picks_first_package_file_within_release() {
    let releases = vec![release(
        &["1.20.1"],
        &["fabric"],
        vec![
            release_file("https://cdn.example/readme", "readme.txt"),
            release_file("https://cdn.example/a.jar", "mod-a.jar"),
            release_file("https://cdn.example/b.jar", "mod-b.jar"),
        ],
        None,
    )];
    let link = resolve_download(&releases, &"1.20.1".to_string(), &"fabric".to_string()).unwrap();
    assert_eq!(link.filename, "mod-a.jar");
    assert_eq!(link.url, "https://cdn.example/a.jar");
}

#[test]
fn resolve_requires_both_version_and_loader() {
    let releases = vec![
        release(
            &["1.20.1"],
            &["forge"],
            vec![release_file("https://cdn.example/forge.jar", "forge.jar")],
            None,
        ),
        release(
            &["1.19.4"],
            &["fabric"],
            vec![release_file("https://cdn.example/old.jar", "old.jar")],
            None,
        ),
    ];
    let err =
        resolve_download(&releases, &"1.20.1".to_string(), &"fabric".to_string()).unwrap_err();
    assert!(matches!(err, ResolveError::NoDownloadablePackage));
    assert_eq!(err.message(), "no downloadable package found");
}

#[test]
fn resolve_fails_when_no_release_has_package_file() {
    let releases = vec![release(
        &["1.20.1"],
        &["fabric"],
        vec![release_file("https://cdn.example/src.zip", "sources.zip")],
        None,
    )];
    let err =
        resolve_download(&releases, &"1.20.1".to_string(), &"fabric".to_string()).unwrap_err();
    assert_eq!(err.message(), "no downloadable package found");
}

#[test]
fn resolve_fails_on_empty_release_list() {
    let err = resolve_download(&Vec::new(), &"1.20.1".to_string(), &"fabric".to_string())
        .unwrap_err();
    assert!(matches!(err, ResolveError::NoDownloadablePackage));
}

#[test]
fn absent_dependency_list_resolves_to_no_dependencies() {
    let releases = vec![release(
        &["1.20.1"],
        &["fabric"],
        vec![release_file("https://cdn.example/m.jar", "m.jar")],
        None,
    )];
    let link = resolve_download(&releases, &"1.20.1".to_string(), &"fabric".to_string()).unwrap();
    assert!(link.dependencies.is_empty());
}

#[test]
fn dependencies_without_project_id_are_dropped() {
    let deps = vec![
        dependency_ref(Some("P7uGFii0"), "required"),
        dependency_ref(None, "optional"),
        dependency_ref(Some("gvQqBUqZ"), "optional"),
        dependency_ref(None, "embedded"),
    ];
    let kept = filter_dependencies(&deps);
    // Count of kept entries equals the count of inputs with a present id.
    assert_eq!(
        kept.len(),
        deps.iter().filter(|d| d.project_id.is_some()).count()
    );
    assert_eq!(kept[0].project_id, "P7uGFii0");
    assert_eq!(kept[0].dependency_type, "required");
    assert_eq!(kept[1].project_id, "gvQqBUqZ");
    assert_eq!(kept[1].dependency_type, "optional");
}

#[test]
fn dependencies_carry_over_into_resolved_link() {
    let releases = vec![release(
        &["1.20.1"],
        &["fabric"],
        vec![release_file("https://cdn.example/m.jar", "m.jar")],
        Some(vec![
            dependency_ref(Some("P7uGFii0"), "required"),
            dependency_ref(None, "incompatible"),
            dependency_ref(Some("gvQqBUqZ"), "optional"),
        ]),
    )];
    let link = resolve_download(&releases, &"1.20.1".to_string(), &"fabric".to_string()).unwrap();
    assert_eq!(link.dependencies.len(), 2);
    assert_eq!(link.dependencies[0].project_id, "P7uGFii0");
    assert_eq!(link.dependencies[1].project_id, "gvQqBUqZ");
}

#[test]
fn jar_file_name_check() {
    assert!(is_jar_file_name("sodium-fabric-1.20.1.jar"));
    assert!(is_jar_file_name(".jar"));
    assert!(!is_jar_file_name("jar"));
    assert!(!is_jar_file_name(""));
    assert!(!is_jar_file_name("mod.jar.zip"));
    assert!(!is_jar_file_name("mod.JAR"));
}

#[test]
fn nonempty_search_results_pass_through() {
    let hits = vec![Project {
        project_id: "AANobbMI".to_string(),
        title: "Sodium".to_string(),
    }];
    assert!(ensure_projects_found(&hits, &"1.20.1".to_string()).is_ok());
}

#[test]
fn empty_search_results_are_a_terminal_error() {
    let err = ensure_projects_found(&Vec::new(), &"1.20.1".to_string()).unwrap_err();
    assert_eq!(
        err.message(),
        "No projects matching Minecraft version 1.20.1 was found"
    );
}
