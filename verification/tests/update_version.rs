use git_releaser::error::ReleaseError;
use git_releaser::version::{map_version_type, update_version, SemanticVersion, VersionType};

fn to_version(version: &str) -> SemanticVersion {
    SemanticVersion::parse(version).unwrap()
}

#[test]
fn test_map_version_type_valid() {
    assert_eq!(
        map_version_type("Prerelease").unwrap(),
        VersionType::Prerelease
    );
    assert_eq!(map_version_type("patch").unwrap(), VersionType::Patch);
    assert_eq!(map_version_type("minoR").unwrap(), VersionType::Minor);
    assert_eq!(map_version_type("major").unwrap(), VersionType::Major);

    assert!(map_version_type("foo").is_err());
}

#[test]
fn test_update_version_prerelease() {
    let res = update_version(to_version("0.1.2"), VersionType::Prerelease).unwrap();
    assert_eq!(res.to_string(), "0.1.3-0");
}

#[test]
fn test_update_version_patch() {
    let res = update_version(to_version("0.1.2"), VersionType::Patch).unwrap();
    assert_eq!(res.to_string(), "0.1.3");
    let res = update_version(to_version("0.1.2-0"), VersionType::Patch).unwrap();
    assert_eq!(res.to_string(), "0.1.2");
}

#[test]
fn test_update_version_minor() {
    let res = update_version(to_version("0.1.2"), VersionType::Minor).unwrap();
    assert_eq!(res.to_string(), "0.2.0");
    let res = update_version(to_version("0.1.2-0"), VersionType::Minor).unwrap();
    assert_eq!(res.to_string(), "0.2.0");
    let res = update_version(to_version("0.2.1-0"), VersionType::Minor).unwrap();
    assert_eq!(res.to_string(), "0.3.0");
}

#[test]
fn test_update_version_major() {
    let res = update_version(to_version("0.1.2"), VersionType::Major).unwrap();
    assert_eq!(res.to_string(), "1.0.0");
    let res = update_version(to_version("0.1.0-0"), VersionType::Major).unwrap();
    assert_eq!(res.to_string(), "1.0.0");
    let res = update_version(to_version("1.0.1-0"), VersionType::Major).unwrap();
    assert_eq!(res.to_string(), "2.0.0");
}

#[test]
fn map_version_type_rejects_other_words() {
    assert_eq!(map_version_type(""), Err(ReleaseError::InvalidVersionType));
    assert_eq!(map_version_type("patch "), Err(ReleaseError::InvalidVersionType));
    assert_eq!(map_version_type("majors"), Err(ReleaseError::InvalidVersionType));
    assert_eq!(map_version_type("PATCH"), Ok(VersionType::Patch));
    assert_eq!(map_version_type("PreRelease"), Ok(VersionType::Prerelease));
    // A letter outside ASCII that lower-cases to nothing in the words.
    assert_eq!(map_version_type("m\u{130}nor"), Err(ReleaseError::InvalidVersionType));
}

#[test]
fn parse_reads_all_five_parts() {
    let v = to_version("10.20.30-alpha.1+build.5");
    assert_eq!(v.major, 10);
    assert_eq!(v.minor, 20);
    assert_eq!(v.patch, 30);
    assert_eq!(v.pre, "alpha.1");
    assert_eq!(v.build, "build.5");
    assert_eq!(v.to_string(), "10.20.30-alpha.1+build.5");
}

#[test]
fn parse_rejects_what_is_no_version() {
    for text in ["", "foo", "1", "1.2", "1.0.0.0", "01.2.3", "1.2.3-", "1.2.3-01", "a.b.c", " 1.2.3"] {
        assert_eq!(
            SemanticVersion::parse(text).err(),
            Some(ReleaseError::InvalidVersion),
            "{:?}",
            text
        );
    }
    assert!(SemanticVersion::parse("18446744073709551616.0.0").is_err());
}

#[test]
fn to_string_writes_large_and_small_numbers() {
    assert_eq!(SemanticVersion::new(0, 0, 0).to_string(), "0.0.0");
    assert_eq!(SemanticVersion::new(9, 10, 11).to_string(), "9.10.11");
    assert_eq!(
        SemanticVersion::new(u64::MAX, 100, 1_000_000).to_string(),
        "18446744073709551615.100.1000000"
    );
    let mut v = SemanticVersion::new(1, 2, 3);
    v.build = "meta".to_string();
    assert_eq!(v.to_string(), "1.2.3+meta");
}

#[test]
fn prerelease_step_always_marks_and_moves_the_patch() {
    for text in ["0.1.2", "0.1.2-0", "3.4.5-rc.1", "7.0.0+b1"] {
        let before = to_version(text);
        let patch = before.patch;
        let after = update_version(before, VersionType::Prerelease).unwrap();
        assert_eq!(after.pre, "0");
        assert_eq!(after.patch, patch + 1);
    }
}

#[test]
fn patch_step_depends_on_the_marker() {
    let after = update_version(to_version("2.3.4"), VersionType::Patch).unwrap();
    assert_eq!((after.major, after.minor, after.patch), (2, 3, 5));
    assert_eq!(after.pre, "");
    let after = update_version(to_version("2.3.4-beta"), VersionType::Patch).unwrap();
    assert_eq!((after.major, after.minor, after.patch), (2, 3, 4));
    assert_eq!(after.pre, "");
}

#[test]
fn minor_and_major_steps_reset_what_is_below() {
    let after = update_version(to_version("2.3.4-0"), VersionType::Minor).unwrap();
    assert_eq!((after.major, after.minor, after.patch), (2, 4, 0));
    assert_eq!(after.pre, "");
    let after = update_version(to_version("2.3.4-0"), VersionType::Major).unwrap();
    assert_eq!((after.major, after.minor, after.patch), (3, 0, 0));
    assert_eq!(after.pre, "");
}

#[test]
fn steps_keep_the_build_metadata() {
    let after = update_version(to_version("1.2.3+exp.sha"), VersionType::Minor).unwrap();
    assert_eq!(after.to_string(), "1.3.0+exp.sha");
}

#[test]
fn steps_beyond_the_range_fail() {
    let top = u64::MAX;
    assert_eq!(
        update_version(SemanticVersion::new(0, 0, top), VersionType::Prerelease).err(),
        Some(ReleaseError::InvalidVersion)
    );
    assert_eq!(
        update_version(SemanticVersion::new(0, 0, top), VersionType::Patch).err(),
        Some(ReleaseError::InvalidVersion)
    );
    assert_eq!(
        update_version(SemanticVersion::new(0, top, 0), VersionType::Minor).err(),
        Some(ReleaseError::InvalidVersion)
    );
    assert_eq!(
        update_version(SemanticVersion::new(top, 0, 0), VersionType::Major).err(),
        Some(ReleaseError::InvalidVersion)
    );
    // A prerelease at the top patch already stands for that patch.
    let mut v = SemanticVersion::new(0, 0, top);
    v.pre = "0".to_string();
    let after = update_version(v, VersionType::Patch).unwrap();
    assert_eq!(after.patch, top);
    assert_eq!(after.pre, "");
}

#[test]
fn error_messages_are_told_apart() {
    assert_eq!(ReleaseError::InvalidVersionType.message(), "Invalid version type");
    assert_eq!(ReleaseError::InvalidVersion.message(), "Invalid version");
    assert_eq!(
        ReleaseError::DuplicateVersionEntry.message(),
        "Version entry already in CHANGELOG.md"
    );
}
