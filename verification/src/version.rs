//! Semantic versions and the transitions between them.

use vstd::prelude::*;
use crate::error::ReleaseError;
use crate::text::{
    ascii_lower, decimal, from_chars, push_decimal, push_str, spells, split, to_ascii_lower,
    to_chars,
};

verus! {

/// The kind of step from one version to the next.
#[derive(Clone, Copy, Debug, PartialEq, Eq, Structural)]
pub enum VersionType {
    Prerelease,
    Patch,
    Minor,
    Major,
}

/// A semantic version as a mathematical value. An empty `pre` means that
/// the version has no prerelease marker, an empty `build` that it has no
/// build metadata.
pub struct VersionModel {
    pub major: nat,
    pub minor: nat,
    pub patch: nat,
    pub pre: Seq<char>,
    pub build: Seq<char>,
}

/// A semantic version. The prerelease marker and the build metadata are
/// kept without their leading sign; an empty string means there is none.
#[derive(Debug, PartialEq, Eq)]
pub struct SemanticVersion {
    pub major: u64,
    pub minor: u64,
    pub patch: u64,
    pub pre: String,
    pub build: String,
}

impl View for SemanticVersion {
    type V = VersionModel;

    open spec fn view(&self) -> VersionModel {
        VersionModel {
            major: self.major as nat,
            minor: self.minor as nat,
            patch: self.patch as nat,
            pre: self.pre@,
            build: self.build@,
        }
    }
}

impl Clone for SemanticVersion {
    fn clone(&self) -> (out: Self)
        ensures
            out@ == self@,
    {
        SemanticVersion {
            major: self.major,
            minor: self.minor,
            patch: self.patch,
            pre: self.pre.clone(),
            build: self.build.clone(),
        }
    }
}

impl VersionModel {
    /// The prerelease marker, where the version has one. A marker that is
    /// present is never empty.
    pub open spec fn prerelease(self) -> Option<Seq<char>> {
        if self.pre.len() == 0 {
            None
        } else {
            Some(self.pre)
        }
    }

    /// Every component fits the machine's version type.
    pub open spec fn fits(self) -> bool {
        &&& self.major <= u64::MAX
        &&& self.minor <= u64::MAX
        &&& self.patch <= u64::MAX
    }

    /// The version as it is written: the three numbers with dots between
    /// them, then the prerelease marker behind a dash and the build
    /// metadata behind a plus sign, each only where it is present.
    pub open spec fn text(self) -> Seq<char> {
        decimal(self.major) + seq!['.'] + decimal(self.minor) + seq!['.'] + decimal(self.patch)
            + (if self.pre.len() > 0 {
            seq!['-'] + self.pre
        } else {
            Seq::empty()
        }) + (if self.build.len() > 0 {
            seq!['+'] + self.build
        } else {
            Seq::empty()
        })
    }
}

/// The identifier is a number: it has digits only, and at least one.
pub open spec fn is_numeric(id: Seq<char>) -> bool {
    &&& id.len() > 0
    &&& forall|i: int| 0 <= i < id.len() ==> '0' <= #[trigger] id[i] <= '9'
}

/// The number that the digits of `id` write.
pub open spec fn number_of(id: Seq<char>) -> nat
    decreases id.len(),
{
    if id.len() == 0 {
        0
    } else {
        number_of(id.drop_last()) * 10 + (id.last() as nat - '0' as nat) as nat
    }
}

/// `a` comes before `b` in the order of the characters' codes, read
/// from the left; a text comes behind each of its proper beginnings.
pub open spec fn text_less(a: Seq<char>, b: Seq<char>) -> bool
    decreases a.len(),
{
    if b.len() == 0 {
        false
    } else if a.len() == 0 {
        true
    } else if a[0] != b[0] {
        a[0] < b[0]
    } else {
        text_less(a.drop_first(), b.drop_first())
    }
}

/// One prerelease identifier has lower precedence than another: two
/// numbers go by their value, a number comes before a word, and two
/// words go by their characters.
pub open spec fn identifier_less(a: Seq<char>, b: Seq<char>) -> bool {
    if is_numeric(a) && is_numeric(b) {
        number_of(a) < number_of(b)
    } else if is_numeric(a) {
        true
    } else if is_numeric(b) {
        false
    } else {
        text_less(a, b)
    }
}

/// Two identifiers have the same precedence.
pub open spec fn identifier_same(a: Seq<char>, b: Seq<char>) -> bool {
    !identifier_less(a, b) && !identifier_less(b, a)
}

/// One list of prerelease identifiers has lower precedence than another:
/// the first identifiers that differ in precedence decide, and a list
/// comes behind each of its proper beginnings.
pub open spec fn identifiers_less(a: Seq<Seq<char>>, b: Seq<Seq<char>>) -> bool
    decreases a.len(),
{
    if b.len() == 0 {
        false
    } else if a.len() == 0 {
        true
    } else if !identifier_same(a[0], b[0]) {
        identifier_less(a[0], b[0])
    } else {
        identifiers_less(a.drop_first(), b.drop_first())
    }
}

/// One prerelease marker has lower precedence than another, an empty
/// marker standing for a release: a prerelease comes before the release,
/// and two prereleases go by their identifiers, which dots divide.
pub open spec fn prerelease_less(a: Seq<char>, b: Seq<char>) -> bool {
    if a.len() == 0 {
        false
    } else if b.len() == 0 {
        true
    } else {
        identifiers_less(split(a, seq!['.']), split(b, seq!['.']))
    }
}

/// `a` has lower precedence than `b` as semantic versioning orders
/// versions: by major, minor and patch as numbers, then by the
/// prerelease marker. Build metadata does not count.
pub open spec fn precedes(a: VersionModel, b: VersionModel) -> bool {
    ||| a.major < b.major
    ||| a.major == b.major && a.minor < b.minor
    ||| a.major == b.major && a.minor == b.minor && a.patch < b.patch
    ||| a.major == b.major && a.minor == b.minor && a.patch == b.patch && prerelease_less(
        a.pre,
        b.pre,
    )
}

/// The version that follows `v` by a step of kind `kind`.
///
/// A prerelease step moves to the next patch and marks it `0`. A patch
/// step drops the marker of a prerelease, which already stands for that
/// patch, and moves to the next patch otherwise. A minor step and a major
/// step start the next minor or major line with no marker.
pub open spec fn transition(v: VersionModel, kind: VersionType) -> VersionModel {
    match kind {
        VersionType::Prerelease => VersionModel { patch: v.patch + 1, pre: seq!['0'], ..v },
        VersionType::Patch => VersionModel {
            patch: if v.pre.len() == 0 {
                v.patch + 1
            } else {
                v.patch
            },
            pre: Seq::empty(),
            ..v
        },
        VersionType::Minor => VersionModel {
            minor: v.minor + 1,
            patch: 0,
            pre: Seq::empty(),
            ..v
        },
        VersionType::Major => VersionModel {
            major: v.major + 1,
            minor: 0,
            patch: 0,
            pre: Seq::empty(),
            ..v
        },
    }
}

/// The transition kind that `word` names, whatever the case of its letters.
pub open spec fn named_version_type(word: Seq<char>) -> Option<VersionType> {
    let low = ascii_lower(word);
    if low == "prerelease"@ {
        Some(VersionType::Prerelease)
    } else if low == "patch"@ {
        Some(VersionType::Patch)
    } else if low == "minor"@ {
        Some(VersionType::Minor)
    } else if low == "major"@ {
        Some(VersionType::Major)
    } else {
        None
    }
}

/// Reads a transition kind from its name, without regard to case.
pub fn map_version_type(version_type_str: &str) -> (out: Result<VersionType, ReleaseError>)
    ensures
        out == match named_version_type(version_type_str@) {
            Some(kind) => Ok::<VersionType, ReleaseError>(kind),
            None => Err(ReleaseError::InvalidVersionType),
        },
{
    let chars = to_chars(version_type_str);
    let low = to_ascii_lower(&chars);
    if spells(&low, "prerelease") {
        Ok(VersionType::Prerelease)
    } else if spells(&low, "patch") {
        Ok(VersionType::Patch)
    } else if spells(&low, "minor") {
        Ok(VersionType::Minor)
    } else if spells(&low, "major") {
        Ok(VersionType::Major)
    } else {
        Err(ReleaseError::InvalidVersionType)
    }
}

/// Steps from `version` to the version that follows it by `version_type`.
/// Fails with `InvalidVersion` where the next version has a component
/// beyond the range of the machine's version type.
pub fn update_version(version: SemanticVersion, version_type: VersionType) -> (out: Result<
    SemanticVersion,
    ReleaseError,
>)
    ensures
        transition(version@, version_type).fits() ==> out is Ok && out->Ok_0@ == transition(
            version@,
            version_type,
        ),
        !transition(version@, version_type).fits() ==> out == Err::<SemanticVersion, ReleaseError>(
            ReleaseError::InvalidVersion,
        ),
{
    let mut version = version;
    match version_type {
        VersionType::Prerelease => {
            if version.patch == u64::MAX {
                return Err(ReleaseError::InvalidVersion);
            }
            version.patch = version.patch + 1;
            version.pre = "0".to_owned();
            proof {
                reveal_strlit("0");
                assert(version.pre@ =~= seq!['0']);
            }
        },
        VersionType::Patch => {
            if version.pre.as_str().is_empty() {
                if version.patch == u64::MAX {
                    return Err(ReleaseError::InvalidVersion);
                }
                version.patch = version.patch + 1;
            }
            version.pre = String::new();
        },
        VersionType::Minor => {
            if version.minor == u64::MAX {
                return Err(ReleaseError::InvalidVersion);
            }
            version.minor = version.minor + 1;
            version.patch = 0;
            version.pre = String::new();
        },
        VersionType::Major => {
            if version.major == u64::MAX {
                return Err(ReleaseError::InvalidVersion);
            }
            version.major = version.major + 1;
            version.minor = 0;
            version.patch = 0;
            version.pre = String::new();
        },
    }
    Ok(version)
}

/// The error with which `semver` refuses a text.
#[verifier::external_type_specification]
#[verifier::external_body]
pub struct ExSemverError(semver::Error);

/// The version that `semver::Version::parse` reads from `text`, or `None`
/// where it refuses the text.
pub uninterp spec fn semver_read(text: Seq<char>) -> Option<VersionModel>;

/// Calls `semver::Version::parse`. The parser is a function of the text
/// alone: what it accepts, and the version it then gives, is `semver_read`
/// of the text. The numbers and the two identifiers are handed over as
/// the parser holds them.
#[verifier::external_body]
fn semver_parse(text: &str) -> (out: Result<SemanticVersion, semver::Error>)
    ensures
        match out {
            Ok(v) => semver_read(text@) == Some(v@),
            Err(_) => semver_read(text@) is None,
        },
{
    match semver::Version::parse(text) {
        Ok(v) => Ok(
            SemanticVersion {
                major: v.major,
                minor: v.minor,
                patch: v.patch,
                pre: v.pre.as_str().to_string(),
                build: v.build.as_str().to_string(),
            },
        ),
        Err(e) => Err(e),
    }
}

/// What reading a version comes to, given what the parser made of the text.
pub fn version_or_invalid<E>(parsed: Result<SemanticVersion, E>) -> (out: Result<
    SemanticVersion,
    ReleaseError,
>)
    ensures
        match parsed {
            Ok(v) => out == Ok::<SemanticVersion, ReleaseError>(v),
            Err(_) => out == Err::<SemanticVersion, ReleaseError>(ReleaseError::InvalidVersion),
        },
{
    match parsed {
        Ok(v) => Ok(v),
        Err(_) => Err(ReleaseError::InvalidVersion),
    }
}

impl SemanticVersion {
    /// Reads a version from its written form. Fails with `InvalidVersion`
    /// where the text does not follow the grammar of semantic versions.
    pub fn parse(text: &str) -> (out: Result<SemanticVersion, ReleaseError>)
        ensures
            match semver_read(text@) {
                Some(v) => out is Ok && out->Ok_0@ == v,
                None => out == Err::<SemanticVersion, ReleaseError>(ReleaseError::InvalidVersion),
            },
    {
        version_or_invalid(semver_parse(text))
    }

    /// The version `major.minor.patch` without marker or metadata.
    pub fn new(major: u64, minor: u64, patch: u64) -> (out: Self)
        ensures
            out@ == (VersionModel {
                major: major as nat,
                minor: minor as nat,
                patch: patch as nat,
                pre: Seq::empty(),
                build: Seq::empty(),
            }),
    {
        SemanticVersion { major, minor, patch, pre: String::new(), build: String::new() }
    }

    /// The prerelease marker, where the version has one.
    pub fn prerelease(&self) -> (out: Option<String>)
        ensures
            match self@.prerelease() {
                Some(marker) => out is Some && out->Some_0@ == marker,
                None => out is None,
            },
    {
        if self.pre.as_str().is_empty() {
            None
        } else {
            Some(self.pre.clone())
        }
    }

    /// The version as it is written, for example `0.1.3-0`.
    pub fn to_string(&self) -> (out: String)
        ensures
            out@ == self@.text(),
    {
        let mut chars: Vec<char> = Vec::new();
        push_decimal(&mut chars, self.major);
        chars.push('.');
        push_decimal(&mut chars, self.minor);
        chars.push('.');
        push_decimal(&mut chars, self.patch);
        if !self.pre.as_str().is_empty() {
            chars.push('-');
            push_str(&mut chars, self.pre.as_str());
        }
        if !self.build.as_str().is_empty() {
            chars.push('+');
            push_str(&mut chars, self.build.as_str());
        }
        assert(chars@ =~= self@.text());
        from_chars(&chars)
    }
}

/// A patch step on a version without prerelease marker moves to the next
/// patch. On a version with a marker it keeps the patch and drops the
/// marker.
pub proof fn lemma_patch_step(v: VersionModel)
    ensures
        v.prerelease() is None ==> transition(v, VersionType::Patch).patch == v.patch + 1,
        v.prerelease() is Some ==> transition(v, VersionType::Patch).patch == v.patch,
        transition(v, VersionType::Patch).prerelease() is None,
{
}

/// A minor step sets the patch to zero and leaves no prerelease marker,
/// whether or not the version had one.
pub proof fn lemma_minor_step(v: VersionModel)
    ensures
        transition(v, VersionType::Minor).patch == 0,
        transition(v, VersionType::Minor).minor == v.minor + 1,
        transition(v, VersionType::Minor).prerelease() is None,
{
}

/// A major step sets minor and patch to zero and leaves no prerelease
/// marker.
pub proof fn lemma_major_step(v: VersionModel)
    ensures
        transition(v, VersionType::Major).major == v.major + 1,
        transition(v, VersionType::Major).minor == 0,
        transition(v, VersionType::Major).patch == 0,
        transition(v, VersionType::Major).prerelease() is None,
{
}

/// A release has higher precedence than each of its own prereleases, and
/// none of them has higher precedence than it.
pub proof fn lemma_release_follows_prerelease(v: VersionModel)
    requires
        v.prerelease() is Some,
    ensures
        precedes(v, VersionModel { pre: Seq::empty(), ..v }),
        !precedes(VersionModel { pre: Seq::empty(), ..v }, v),
{
}

/// Every step gives a version of higher precedence than the version it
/// came from.
pub proof fn lemma_transition_is_newer(v: VersionModel, kind: VersionType)
    ensures
        precedes(v, transition(v, kind)),
        !precedes(transition(v, kind), v),
{
}

/// A prerelease step always gives a version with a prerelease marker,
/// and its patch is exactly one above the patch of the version it came
/// from.
pub proof fn lemma_prerelease_step(v: VersionModel)
    ensures
        transition(v, VersionType::Prerelease).prerelease() is Some,
        transition(v, VersionType::Prerelease).patch == v.patch + 1,
{
}

} // verus!
