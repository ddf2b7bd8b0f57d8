//! The failures that the release operations report.

use vstd::prelude::*;

verus! {

/// Why a release operation failed.
#[derive(Clone, Copy, Debug, PartialEq, Eq, Structural)]
pub enum ReleaseError {
    /// A version string is no semantic version, or a transition would
    /// leave the range of a version component.
    InvalidVersion,
    /// A transition kind is none of prerelease, patch, minor, major.
    InvalidVersionType,
    /// A descriptor file has an extension that is not supported.
    UnsupportedFileType,
    /// A descriptor document has no version field that holds a string.
    MissingVersionField,
    /// The companion lock artifact could not be brought in line.
    LockSyncFailed,
    /// The changelog already has a section for the version.
    DuplicateVersionEntry,
    /// The changelog does not begin with its top-level header.
    MalformedChangelog,
    /// The hosting platform refused the release.
    ReleasePublishFailed,
    /// A descriptor or changelog could not be read or written as a
    /// document of its format.
    Io,
}

impl ReleaseError {
    /// A short description for the terminal.
    pub fn message(&self) -> (out: &'static str)
        ensures
            out@ == self.message_text(),
    {
        match self {
            ReleaseError::InvalidVersion => "Invalid version",
            ReleaseError::InvalidVersionType => "Invalid version type",
            ReleaseError::UnsupportedFileType => "Extension not supported",
            ReleaseError::MissingVersionField => "Version property is not valid",
            ReleaseError::LockSyncFailed => "The lock file could not be synced",
            ReleaseError::DuplicateVersionEntry => "Version entry already in CHANGELOG.md",
            ReleaseError::MalformedChangelog => "CHANGELOG.md must start with '# CHANGELOG'",
            ReleaseError::ReleasePublishFailed => "The release could not be published",
            ReleaseError::Io => "The file could not be read or written",
        }
    }

    /// The text of `message` for each failure.
    pub open spec fn message_text(&self) -> Seq<char> {
        match self {
            ReleaseError::InvalidVersion => "Invalid version"@,
            ReleaseError::InvalidVersionType => "Invalid version type"@,
            ReleaseError::UnsupportedFileType => "Extension not supported"@,
            ReleaseError::MissingVersionField => "Version property is not valid"@,
            ReleaseError::LockSyncFailed => "The lock file could not be synced"@,
            ReleaseError::DuplicateVersionEntry => "Version entry already in CHANGELOG.md"@,
            ReleaseError::MalformedChangelog => "CHANGELOG.md must start with '# CHANGELOG'"@,
            ReleaseError::ReleasePublishFailed => "The release could not be published"@,
            ReleaseError::Io => "The file could not be read or written"@,
        }
    }
}

} // verus!
