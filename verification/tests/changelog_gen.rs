use git_releaser::changelog_gen::{
    iso_date, CalendarDate, ChangelogGenerator, CHANGELOG_FILE_PATH, CHANGELOG_HEADER,
};
use git_releaser::commit::{Commit, User};
use git_releaser::error::ReleaseError;
use git_releaser::version::SemanticVersion;

fn version(text: &str) -> SemanticVersion {
    SemanticVersion::parse(text).unwrap()
}

fn two_commits() -> Vec<Commit> {
    let user = User {
        name: "name".to_string(),
        email: "email".to_string(),
        date: "date".to_string(),
    };
    vec![
        Commit {
            commit: "commit2".to_string(),
            abbreviated_commit: "abb_commit2".to_string(),
            refs: "refs2".to_string(),
            commit_notes: "commit_notes".to_string(),
            subject: "second".to_string(),
            sanitized_subject_line: "sanitized-subject-line".to_string(),
            author: user.clone(),
            committer: user.clone(),
        },
        Commit {
            commit: "commit1".to_string(),
            abbreviated_commit: "abb_commit1".to_string(),
            refs: "refs1".to_string(),
            commit_notes: "commit_notes".to_string(),
            subject: "first".to_string(),
            sanitized_subject_line: "sanitized-subject-line".to_string(),
            author: user.clone(),
            committer: user.clone(),
        },
    ]
}

#[test]
fn test_update_changelog() {
    //
}

#[test]
fn test_insert_entry_empty() {
    let change_gen = ChangelogGenerator {};

    let log = "".to_owned();
    let version = &version("0.1.2");
    let new_entry = "## v0.1.2 (2020-10-05)\n\n- change 1\nchange 2".to_string();

    let res = change_gen.insert_entry(log, version, new_entry.to_string());
    assert!(res.is_err());
}

#[test]
fn test_insert_entry_already_exists() {
    let change_gen = ChangelogGenerator {};

    let log = "# CHANGELOG\n\n## v0.1.2 (2020-10-04)".to_owned();
    let version = &version("0.1.2");
    let new_entry = "## v0.1.2 (2020-10-05)\n\n- change 1\nchange 2".to_string();

    let res = change_gen.insert_entry(log, version, new_entry.to_string());
    assert!(res.is_err());
}

#[test]
fn test_insert_entry_incorrect_header() {
    let change_gen = ChangelogGenerator {};

    let log = "# RELEASES".to_owned();
    let version = &version("0.1.2");
    let new_entry = "## v0.1.2 (2020-10-05)\n\n- change 1\nchange 2".to_string();

    let res = change_gen.insert_entry(log, version, new_entry.to_string());
    assert!(res.is_err());
}

#[test]
fn test_insert_entry_just_header() {
    let change_gen = ChangelogGenerator {};

    let log = CHANGELOG_HEADER.to_owned();
    let version = &version("0.1.2");
    let new_entry = "## v0.1.2 (2020-10-05)\n\n- change 1\nchange 2".to_string();

    let res = change_gen
        .insert_entry(log, version, new_entry.to_string())
        .unwrap();
    let expected = format!("{}{}\n", CHANGELOG_HEADER, new_entry);
    assert_eq!(res, expected);
}

#[test]
fn test_markdown_changelog() {
    let change_gen = ChangelogGenerator {};
    let ver = &version("1.2.3");

    let non_empty: Vec<Commit> = two_commits();
    let non_empty_expected = "## v1.2.3 (2020-10-14)\n\n- second\n- first\n".to_string();
    assert_eq!(
        change_gen.markdown_changelog_on(&non_empty, Some(ver), "2020-10-14"),
        non_empty_expected
    );

    let empty: Vec<Commit> = vec![];
    let empty_expected = "## 2020-10-14\n\nNo commits since last version\n".to_string();
    assert_eq!(
        change_gen.markdown_changelog_on(&empty, None, "2020-10-14"),
        empty_expected
    );
}

#[test]
fn test_compact_changelog() {
    let change_gen = ChangelogGenerator {};

    let non_empty: Vec<Commit> = two_commits();
    let non_empty_expected = " - second\n - first\n".to_string();
    assert_eq!(change_gen.compact_changelog(&non_empty), non_empty_expected);

    let empty: Vec<Commit> = vec![];
    let empty_expected = "No commits since last version".to_string();
    assert_eq!(change_gen.compact_changelog(&empty), empty_expected);
}

#[test]
fn empty_commit_list_with_a_version() {
    let change_gen = ChangelogGenerator::new();
    assert_eq!(
        change_gen.markdown_changelog_on(&[], Some(&version("1.2.3")), "2020-10-14"),
        "## v1.2.3 (2020-10-14)\n\nNo commits since last version\n"
    );
}

#[test]
fn commits_without_a_version() {
    let change_gen = ChangelogGenerator::new();
    assert_eq!(
        change_gen.markdown_changelog_on(&two_commits(), None, "2021-01-02"),
        "## 2021-01-02\n\n- second\n- first\n"
    );
}

#[test]
fn todays_section_has_the_shape_of_a_dated_one() {
    let change_gen = ChangelogGenerator::new();
    let out = change_gen.markdown_changelog(&two_commits(), Some(&version("1.2.3-0")));
    assert!(out.starts_with("## v1.2.3-0 ("));
    assert!(out.ends_with(")\n\n- second\n- first\n"));
    let date = &out["## v1.2.3-0 (".len()..out.len() - ")\n\n- second\n- first\n".len()];
    assert_eq!(date.len(), 10);
    for (i, c) in date.chars().enumerate() {
        if i == 4 || i == 7 {
            assert_eq!(c, '-');
        } else {
            assert!(c.is_ascii_digit());
        }
    }
    let month: u32 = date[5..7].parse().unwrap();
    let day: u32 = date[8..10].parse().unwrap();
    assert!((1..=12).contains(&month));
    assert!((1..=31).contains(&day));
    assert_eq!(
        out,
        change_gen.markdown_changelog_on(&two_commits(), Some(&version("1.2.3-0")), date)
    );
    let out = change_gen.markdown_changelog(&[], None);
    assert!(out.starts_with("## "));
    assert!(out.ends_with("\n\nNo commits since last version\n"));
}

#[test]
fn insert_entry_names_its_failures() {
    let change_gen = ChangelogGenerator::new();
    let v = version("0.1.2");
    let entry = "## v0.1.2 (2020-10-05)\n\n- change".to_string();
    assert_eq!(
        change_gen.insert_entry("".to_string(), &v, entry.clone()),
        Err(ReleaseError::MalformedChangelog)
    );
    assert_eq!(
        change_gen.insert_entry("# RELEASES\n\n".to_string(), &v, entry.clone()),
        Err(ReleaseError::MalformedChangelog)
    );
    // The header line alone, without the empty line behind it.
    assert_eq!(
        change_gen.insert_entry("# CHANGELOG\n".to_string(), &v, entry.clone()),
        Err(ReleaseError::MalformedChangelog)
    );
    assert_eq!(
        change_gen.insert_entry(
            "# CHANGELOG\n\n## v0.1.2 (2020-10-04)".to_string(),
            &v,
            entry.clone()
        ),
        Err(ReleaseError::DuplicateVersionEntry)
    );
    // The duplicate is reported first where both failures apply.
    assert_eq!(
        change_gen.insert_entry("# RELEASES\n\n## v0.1.2\n".to_string(), &v, entry.clone()),
        Err(ReleaseError::DuplicateVersionEntry)
    );
}

#[test]
fn a_section_of_another_version_is_no_duplicate() {
    let change_gen = ChangelogGenerator::new();
    let v = version("0.1.2");
    let entry = "## v0.1.2 (2020-10-05)\n\n- change\n".to_string();
    for other in ["## v0.1.20 (2020-10-04)\n", "## v0.1.2-0 (2020-10-04)\n", "## v0.1.2.1\n", "## v10.1.2\n", "## v0.1.2+b (x)\n"] {
        let doc = format!("# CHANGELOG\n\n{}", other);
        let out = change_gen.insert_entry(doc, &v, entry.clone()).unwrap();
        assert_eq!(out, format!("# CHANGELOG\n\n{}\n{}", entry, other));
    }
    for same in ["## v0.1.2 (2020-10-04)\n", "## v0.1.2\n", "## v0.1.2", "text ## v0.1.2: more", "## v0.1.20\n## v0.1.2\n"] {
        let doc = format!("# CHANGELOG\n\n{}", same);
        assert_eq!(
            change_gen.insert_entry(doc, &v, entry.clone()),
            Err(ReleaseError::DuplicateVersionEntry)
        );
    }
}

#[test]
fn merging_the_same_section_twice_fails() {
    let change_gen = ChangelogGenerator::new();
    let v = version("1.0.0");
    let entry = change_gen.markdown_changelog_on(&two_commits(), Some(&v), "2020-10-14");
    let once = change_gen
        .insert_entry(CHANGELOG_HEADER.to_string(), &v, entry.clone())
        .unwrap();
    assert_eq!(
        change_gen.insert_entry(once, &v, entry),
        Err(ReleaseError::DuplicateVersionEntry)
    );
}

#[test]
fn later_sections_stand_above_earlier_ones() {
    let change_gen = ChangelogGenerator::new();
    let first = change_gen.markdown_changelog_on(&[], Some(&version("1.0.0")), "2020-10-14");
    let second = change_gen.markdown_changelog_on(&two_commits(), Some(&version("1.1.0")), "2020-11-01");
    let doc = change_gen
        .insert_entry(CHANGELOG_HEADER.to_string(), &version("1.0.0"), first)
        .unwrap();
    let doc = change_gen
        .insert_entry(doc, &version("1.1.0"), second)
        .unwrap();
    assert_eq!(
        doc,
        "# CHANGELOG\n\n## v1.1.0 (2020-11-01)\n\n- second\n- first\n\n## v1.0.0 (2020-10-14)\n\nNo commits since last version\n\n"
    );
    let header = doc.find("# CHANGELOG").unwrap();
    let later = doc.find("## v1.1.0").unwrap();
    let earlier = doc.find("## v1.0.0").unwrap();
    assert!(header < later && later < earlier);
}

#[test]
fn only_the_header_at_the_top_takes_the_entry() {
    let change_gen = ChangelogGenerator::new();
    let doc = "# CHANGELOG\n\nnotes\n## CHANGELOG\n\nmore\n".to_string();
    let out = change_gen
        .insert_entry(doc, &version("3.0.0"), "ENTRY".to_string())
        .unwrap();
    assert_eq!(out, "# CHANGELOG\n\nENTRY\nnotes\n## CHANGELOG\n\nmore\n");
}

#[test]
fn a_missing_or_empty_changelog_starts_from_the_header() {
    let change_gen = ChangelogGenerator::new();
    assert_eq!(change_gen.read_changelog_contents(None), CHANGELOG_HEADER);
    assert_eq!(
        change_gen.read_changelog_contents(Some(String::new())),
        CHANGELOG_HEADER
    );
    assert_eq!(
        change_gen.read_changelog_contents(Some("# CHANGELOG\n\nold\n".to_string())),
        "# CHANGELOG\n\nold\n"
    );
    assert_eq!(change_gen.read_changelog_contents(Some(" ".to_string())), " ");
}

#[test]
fn write_changelog_merges_into_what_was_read() {
    let change_gen = ChangelogGenerator::new();
    let v = version("0.2.0");
    assert_eq!(
        change_gen.write_changelog(None, &v, "E".to_string()).unwrap(),
        "# CHANGELOG\n\nE\n"
    );
    assert_eq!(
        change_gen
            .write_changelog(Some("# CHANGELOG\n\nold\n".to_string()), &v, "E".to_string())
            .unwrap(),
        "# CHANGELOG\n\nE\nold\n"
    );
    assert_eq!(
        change_gen.write_changelog(Some("junk".to_string()), &v, "E".to_string()),
        Err(ReleaseError::MalformedChangelog)
    );
}

#[test]
fn update_changelog_renders_and_merges() {
    let change_gen = ChangelogGenerator::new();
    let v = version("0.2.0");
    let out = change_gen.update_changelog(None, &two_commits(), &v).unwrap();
    let entry = change_gen.markdown_changelog(&two_commits(), Some(&v));
    assert_eq!(out, format!("# CHANGELOG\n\n{}\n", entry));
    assert_eq!(
        change_gen.update_changelog(Some(out), &two_commits(), &v),
        Err(ReleaseError::DuplicateVersionEntry)
    );
}

#[test]
fn generate_changelog_reads_the_log_and_merges() {
    let change_gen = ChangelogGenerator::new();
    let v = version("0.2.0");
    let record = |subject: &str| {
        format!(
            "{{ \"commit\": \"c\", \"abbreviated_commit\": \"a\", \"refs\": \"\", \"subject\": \"{}\", \"sanitized_subject_line\": \"s\", \"commit_notes\": \"\", \"author\": {{ \"name\": \"n\", \"email\": \"e\", \"date\": \"d\" }}, \"committer\": {{ \"name\": \"n\", \"email\": \"e\", \"date\": \"d\" }}}}END",
            subject
        )
    };
    let raw = format!(
        "{}{}{}",
        record("feat: one"),
        record("chore: releasing v0.1.0"),
        record("fix: two")
    );
    let (commits, text) = change_gen.generate_changelog(&raw, None, &v).unwrap();
    assert_eq!(commits.len(), 2);
    assert_eq!(commits[0].subject, "feat: one");
    assert_eq!(commits[1].subject, "fix: two");
    let entry = change_gen.markdown_changelog(&commits, Some(&v));
    assert_eq!(text, format!("# CHANGELOG\n\n{}\n", entry));
    assert!(entry.ends_with("\n\n- feat: one\n- fix: two\n"));
    assert_eq!(
        change_gen.generate_changelog(&raw, Some("x".to_string()), &v).err(),
        Some(ReleaseError::MalformedChangelog)
    );
}

#[test]
fn the_changelog_has_a_fixed_place_and_header() {
    assert_eq!(CHANGELOG_FILE_PATH, "CHANGELOG.md");
    assert_eq!(CHANGELOG_HEADER, "# CHANGELOG\n\n");
}

fn date(year: i32, month: u32, day: u32) -> CalendarDate {
    CalendarDate { year, month, day }
}

#[test]
fn dates_are_written_as_iso_writes_them() {
    assert_eq!(iso_date(date(2020, 10, 14)), "2020-10-14");
    assert_eq!(iso_date(date(2021, 1, 2)), "2021-01-02");
    assert_eq!(iso_date(date(1, 1, 1)), "0001-01-01");
    assert_eq!(iso_date(date(0, 12, 31)), "0000-12-31");
    assert_eq!(iso_date(date(9999, 12, 31)), "9999-12-31");
    assert_eq!(iso_date(date(10000, 1, 1)), "+10000-01-01");
    assert_eq!(iso_date(date(-1, 2, 3)), "-0001-02-03");
    assert_eq!(iso_date(date(-12345, 2, 3)), "-12345-02-03");
    assert_eq!(iso_date(date(i32::MIN, 2, 3)), "-2147483648-02-03");
    assert_eq!(iso_date(date(i32::MAX, 2, 3)), "+2147483647-02-03");
}

#[test]
fn dates_are_written_as_the_calendar_library_writes_them() {
    for (year, month, day) in [
        (2020, 10, 14),
        (1970, 1, 1),
        (1, 2, 3),
        (0, 6, 30),
        (999, 12, 31),
        (9999, 12, 31),
        (10000, 1, 1),
        (262142, 12, 31),
        (-1, 1, 1),
        (-45, 3, 15),
        (-262143, 1, 1),
    ] {
        let expected = chrono::NaiveDate::from_ymd_opt(year, month, day)
            .unwrap()
            .format("%Y-%m-%d")
            .to_string();
        assert_eq!(iso_date(date(year, month, day)), expected);
    }
}

#[test]
fn todays_section_carries_todays_date() {
    let change_gen = ChangelogGenerator::new();
    let before = chrono::Local::now().date_naive();
    let out = change_gen.markdown_changelog(&[], None);
    let after = chrono::Local::now().date_naive();
    let on = |day: chrono::NaiveDate| {
        format!(
            "## {}\n\nNo commits since last version\n",
            day.format("%Y-%m-%d")
        )
    };
    assert!(out == on(before) || out == on(after));
}
