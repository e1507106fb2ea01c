//! The pipeline's domain errors and their printed messages.

use vstd::prelude::*;
use vstd::string::StringExecFns;

verus! {

/// A terminal "not found" condition of the pipeline.  Transport and
/// deserialization failures stay with the caller that performs the I/O;
/// these are the domain-logic outcomes the resolution functions decide.
#[derive(Debug)]
pub enum ResolveError {
    /// The tag listing holds no "release"-typed entry.
    NoStableRelease,
    /// The search returned no hit for the requested game version.
    NoMatchingProjects { version: String },
    /// No release of the project carries a downloadable package file for
    /// the requested version/loader pair.
    NoDownloadablePackage,
}

impl ResolveError {
    /// The message the tool prints for this failure.
    pub open spec fn spec_message(&self) -> Seq<char> {
        match self {
            ResolveError::NoStableRelease => "no stable release version found"@,
            ResolveError::NoMatchingProjects { version } => "No projects matching Minecraft version "@
                + version@ + " was found"@,
            ResolveError::NoDownloadablePackage => "no downloadable package found"@,
        }
    }

    /// Renders the error as the message the tool prints.
    pub fn message(&self) -> (r: String)
        ensures
            r@ == self.spec_message(),
    {
        match self {
            ResolveError::NoStableRelease => "no stable release version found".to_owned(),
            ResolveError::NoMatchingProjects { version } => {
                let mut s = "No projects matching Minecraft version ".to_owned();
                s.append(version.as_str());
                s.append(" was found");
                proof {
                    assert(s@ =~= "No projects matching Minecraft version "@ + version@
                        + " was found"@);
                }
                s
            },
            ResolveError::NoDownloadablePackage => "no downloadable package found".to_owned(),
        }
    }
}

} // verus!
