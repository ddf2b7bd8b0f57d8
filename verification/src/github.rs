//! What is handed to the hosting platform when a release is published.
//! The call itself is left to the caller.

use vstd::prelude::*;
use crate::error::ReleaseError;
use crate::git::is_release_noise;
use crate::text::{from_chars, push_str, split, split_text, to_chars};
use crate::version::{SemanticVersion, VersionModel};

verus! {

/// The owner and the repository that `project` names: what stands
/// before its first slash, and what stands between the first slash and
/// the second or the end. A text without slash names none.
pub open spec fn project_parts(project: Seq<char>) -> Option<(Seq<char>, Seq<char>)> {
    let parts = split(project, seq!['/']);
    if parts.len() >= 2 {
        Some((parts[0], parts[1]))
    } else {
        None
    }
}

/// Reads owner and repository from a value of the form `<org>/<repo>`.
pub fn parse_project_string(project: &str) -> (out: Option<(String, String)>)
    ensures
        match project_parts(project@) {
            Some(parts) => out is Some && out->Some_0.0@ == parts.0 && out->Some_0.1@ == parts.1,
            None => out is None,
        },
{
    let chars = to_chars(project);
    let mut sep: Vec<char> = Vec::new();
    sep.push('/');
    assert(sep@ =~= seq!['/']);
    let parts = split_text(&chars, &sep);
    if parts.len() >= 2 {
        Some((from_chars(&parts[0]), from_chars(&parts[1])))
    } else {
        None
    }
}

/// A release as the hosting platform is asked to create it.
#[derive(Debug, PartialEq, Eq)]
pub struct ReleaseRequest {
    pub tag_name: String,
    pub target_commitish: String,
    pub name: String,
    pub body: String,
    pub draft: bool,
    pub prerelease: bool,
}

/// The release for a tag: it is named after the tag, points to the
/// tagged commit, carries the changelog as its body, and is neither a
/// draft nor a prerelease.
pub fn release_request(tag: &str, tagged_commitish: &str, changelog: &str) -> (out: ReleaseRequest)
    ensures
        out.tag_name@ == tag@,
        out.target_commitish@ == tagged_commitish@,
        out.name@ == tag@,
        out.body@ == changelog@,
        !out.draft,
        !out.prerelease,
{
    ReleaseRequest {
        tag_name: tag.to_owned(),
        target_commitish: tagged_commitish.to_owned(),
        name: tag.to_owned(),
        body: changelog.to_owned(),
        draft: false,
        prerelease: false,
    }
}

/// What the attempt to create the release comes to: a failure of any
/// kind is reported as `ReleasePublishFailed`.
pub fn publish_result(created: bool) -> (out: Result<bool, ReleaseError>)
    ensures
        out == (if created {
            Ok::<bool, ReleaseError>(true)
        } else {
            Err::<bool, ReleaseError>(ReleaseError::ReleasePublishFailed)
        }),
{
    if created {
        Ok(true)
    } else {
        Err(ReleaseError::ReleasePublishFailed)
    }
}

/// The tag under which `version` is released.
pub fn tag_name(version: &SemanticVersion) -> (out: String)
    ensures
        out@ == "v"@ + version@.text(),
{
    let mut chars: Vec<char> = Vec::new();
    push_str(&mut chars, "v");
    let text = version.to_string();
    push_str(&mut chars, text.as_str());
    from_chars(&chars)
}

/// The subject of the commit that releases `version`.
pub open spec fn release_subject(version: VersionModel) -> Seq<char> {
    "chore: releasing"@ + " "@ + version.text()
}

/// The subject of the commit that brings the changelog up to date.
pub open spec fn changelog_subject() -> Seq<char> {
    "docs: updating changelog"@ + " [ci skip]"@
}

/// The subject of the commit that opens the work on `version`.
pub open spec fn development_subject(version: VersionModel) -> Seq<char> {
    "chore: beginning development on"@ + " "@ + version.text() + " [ci skip]"@
}

/// The message of the commit that releases `version`.
pub fn release_message(version: &SemanticVersion) -> (out: String)
    ensures
        out@ == release_subject(version@),
{
    let mut chars: Vec<char> = Vec::new();
    push_str(&mut chars, "chore: releasing");
    push_str(&mut chars, " ");
    let text = version.to_string();
    push_str(&mut chars, text.as_str());
    assert(chars@ =~= release_subject(version@));
    from_chars(&chars)
}

/// The message of the commit that brings the changelog up to date.
pub fn changelog_message() -> (out: String)
    ensures
        out@ == changelog_subject(),
{
    let mut chars: Vec<char> = Vec::new();
    push_str(&mut chars, "docs: updating changelog");
    push_str(&mut chars, " [ci skip]");
    from_chars(&chars)
}

/// The message of the commit that opens the work on `version`.
pub fn development_message(version: &SemanticVersion) -> (out: String)
    ensures
        out@ == development_subject(version@),
{
    let mut chars: Vec<char> = Vec::new();
    push_str(&mut chars, "chore: beginning development on");
    push_str(&mut chars, " ");
    let text = version.to_string();
    push_str(&mut chars, text.as_str());
    push_str(&mut chars, " [ci skip]");
    assert(chars@ =~= development_subject(version@));
    from_chars(&chars)
}

/// The commits that a release writes are all commits that the log
/// adapter leaves out of a changelog.
pub proof fn lemma_own_commits_are_noise(version: VersionModel)
    ensures
        is_release_noise(release_subject(version)),
        is_release_noise(changelog_subject()),
        is_release_noise(development_subject(version)),
{
    let a = "chore: releasing"@;
    let b = "docs: updating changelog"@;
    let c = "chore: beginning development on"@;
    assert(release_subject(version).subrange(0, a.len() as int) =~= a);
    assert(changelog_subject().subrange(0, b.len() as int) =~= b);
    assert(development_subject(version).subrange(0, c.len() as int) =~= c);
}

} // verus!
