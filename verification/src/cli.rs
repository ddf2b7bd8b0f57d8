//! The settings of one run, as the command line gives them.

use vstd::prelude::*;

verus! {

/// The settings of one run.
#[derive(Debug, PartialEq, Eq)]
pub struct CliArgs {
    /// The project on the hosting platform, as `<org>/<repo>`.
    pub repo: String,
    /// The kind of release: `prerelease`, `patch`, `minor` or `major`.
    pub version_type: String,
    /// The descriptor file that carries the version.
    pub version_file: String,
    /// The access token for the hosting platform.
    pub personal_token: String,
    /// The main branch of the project.
    pub main_branch: String,
}

} // verus!
