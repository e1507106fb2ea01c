//! Data model of the pipeline: plain-value types for what the service
//! returns, their mathematical views, and the error taxonomy.

use vstd::prelude::*;

verus! {

/// One entry of the game-version tag listing: a version tag together with
/// its release-type label ("release", "snapshot", ...).
#[derive(Debug)]
pub struct GameVersion {
    pub version: String,
    pub version_type: String,
}

/// Mathematical view of a `GameVersion`.
pub struct SpecGameVersion {
    pub version: Seq<char>,
    pub version_type: Seq<char>,
}

impl View for GameVersion {
    type V = SpecGameVersion;

    open spec fn view(&self) -> SpecGameVersion {
        SpecGameVersion { version: self.version@, version_type: self.version_type@ }
    }
}

impl DeepView for GameVersion {
    type V = SpecGameVersion;

    open spec fn deep_view(&self) -> SpecGameVersion {
        self.view()
    }
}

/// A search hit: an opaque project id and a display title.
#[derive(Debug)]
pub struct Project {
    pub project_id: String,
    pub title: String,
}

/// Mathematical view of a `Project`.
pub struct SpecProject {
    pub project_id: Seq<char>,
    pub title: Seq<char>,
}

impl View for Project {
    type V = SpecProject;

    open spec fn view(&self) -> SpecProject {
        SpecProject { project_id: self.project_id@, title: self.title@ }
    }
}

impl DeepView for Project {
    type V = SpecProject;

    open spec fn deep_view(&self) -> SpecProject {
        self.view()
    }
}

/// One downloadable file of a release: its URL and its file name.
#[derive(Debug)]
pub struct ReleaseFile {
    pub url: String,
    pub filename: String,
}

/// Mathematical view of a `ReleaseFile`.
pub struct SpecReleaseFile {
    pub url: Seq<char>,
    pub filename: Seq<char>,
}

impl View for ReleaseFile {
    type V = SpecReleaseFile;

    open spec fn view(&self) -> SpecReleaseFile {
        SpecReleaseFile { url: self.url@, filename: self.filename@ }
    }
}

impl DeepView for ReleaseFile {
    type V = SpecReleaseFile;

    open spec fn deep_view(&self) -> SpecReleaseFile {
        self.view()
    }
}

/// A dependency reference as a release declares it: the project id may be
/// absent, in which case the dependency cannot be named later.
#[derive(Debug)]
pub struct DependencyRef {
    pub project_id: Option<String>,
    pub dependency_type: String,
}

/// Mathematical view of a `DependencyRef`.
pub struct SpecDependencyRef {
    pub project_id: Option<Seq<char>>,
    pub dependency_type: Seq<char>,
}

impl View for DependencyRef {
    type V = SpecDependencyRef;

    open spec fn view(&self) -> SpecDependencyRef {
        SpecDependencyRef {
            project_id: self.project_id.deep_view(),
            dependency_type: self.dependency_type@,
        }
    }
}

impl DeepView for DependencyRef {
    type V = SpecDependencyRef;

    open spec fn deep_view(&self) -> SpecDependencyRef {
        self.view()
    }
}

/// One published release of a project: the game versions and loaders it
/// supports, its files, and its declared dependencies (which the service
/// may omit altogether).
#[derive(Debug)]
pub struct ReleaseCandidate {
    pub game_versions: Vec<String>,
    pub loaders: Vec<String>,
    pub files: Vec<ReleaseFile>,
    pub dependencies: Option<Vec<DependencyRef>>,
}

/// Mathematical view of a `ReleaseCandidate`.
pub struct SpecReleaseCandidate {
    pub game_versions: Seq<Seq<char>>,
    pub loaders: Seq<Seq<char>>,
    pub files: Seq<SpecReleaseFile>,
    pub dependencies: Option<Seq<SpecDependencyRef>>,
}

impl View for ReleaseCandidate {
    type V = SpecReleaseCandidate;

    open spec fn view(&self) -> SpecReleaseCandidate {
        SpecReleaseCandidate {
            game_versions: self.game_versions.deep_view(),
            loaders: self.loaders.deep_view(),
            files: self.files.deep_view(),
            dependencies: self.dependencies.deep_view(),
        }
    }
}

impl DeepView for ReleaseCandidate {
    type V = SpecReleaseCandidate;

    open spec fn deep_view(&self) -> SpecReleaseCandidate {
        self.view()
    }
}

/// A kept dependency: the declared project id (present by construction)
/// and the dependency-type label.
#[derive(Debug)]
pub struct Dependency {
    pub project_id: String,
    pub dependency_type: String,
}

/// Mathematical view of a `Dependency`.
pub struct SpecDependency {
    pub project_id: Seq<char>,
    pub dependency_type: Seq<char>,
}

impl View for Dependency {
    type V = SpecDependency;

    open spec fn view(&self) -> SpecDependency {
        SpecDependency {
            project_id: self.project_id@,
            dependency_type: self.dependency_type@,
        }
    }
}

impl DeepView for Dependency {
    type V = SpecDependency;

    open spec fn deep_view(&self) -> SpecDependency {
        self.view()
    }
}

/// The resolved download: URL, file name, and the dependency references
/// carried over from the matching release (entries without a project id
/// dropped).
#[derive(Debug)]
pub struct Link {
    pub url: String,
    pub filename: String,
    pub dependencies: Vec<Dependency>,
}

/// Mathematical view of a `Link`.
pub struct SpecLink {
    pub url: Seq<char>,
    pub filename: Seq<char>,
    pub dependencies: Seq<SpecDependency>,
}

impl View for Link {
    type V = SpecLink;

    open spec fn view(&self) -> SpecLink {
        SpecLink {
            url: self.url@,
            filename: self.filename@,
            dependencies: self.dependencies.deep_view(),
        }
    }
}

impl DeepView for Link {
    type V = SpecLink;

    open spec fn deep_view(&self) -> SpecLink {
        self.view()
    }
}

} // verus!
