//! Resolution pipeline for a Minecraft mod downloader.
//!
//! The library holds the decision logic of the tool: picking the latest
//! stable game version from the service's tag listing, building the search
//! facets, choosing the release and file to download for a version/loader
//! pair, and filtering declared dependencies.  All network traffic and the
//! interactive prompt live outside the library and hand it plain values.

pub mod api;
pub mod error;
pub mod model;
pub mod release;
pub mod report;
pub mod search;
pub mod version;

pub use error::ResolveError;
pub use model::Dependency;
pub use model::DependencyRef;
pub use model::GameVersion;
pub use model::Link;
pub use model::Project;
pub use model::ReleaseCandidate;
pub use model::ReleaseFile;
