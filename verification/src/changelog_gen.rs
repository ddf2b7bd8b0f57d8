//! The changelog: how a section for a version is rendered from the
//! commits, and how it is merged into the document.

use vstd::prelude::*;
use crate::commit::{Commit, CommitModel};
use crate::error::ReleaseError;
use crate::git::{commit_views, log_commits, parse_log};
use crate::text::{
    decimal, find, from_chars, lemma_find_from, matches_at, occurs_at, padded, push_decimal,
    push_padded, push_str, slice, starts_with, to_chars,
};
use crate::version::{SemanticVersion, VersionModel};

verus! {

/// The file that holds the changelog.
pub const CHANGELOG_FILE_PATH: &'static str = "CHANGELOG.md";

/// The line with which every changelog begins, and the empty line
/// behind it.
pub const CHANGELOG_HEADER: &'static str = "# CHANGELOG\n\n";

/// The header as a mathematical value.
pub open spec fn changelog_header() -> Seq<char> {
    CHANGELOG_HEADER@
}

/// The start of the title of the section for `version`.
pub open spec fn section_marker(version: VersionModel) -> Seq<char> {
    "## v"@ + version.text()
}

/// `c` can stand in the written form of a version.
pub open spec fn is_version_char(c: char) -> bool {
    ||| '0' <= c <= '9'
    ||| 'a' <= c <= 'z'
    ||| 'A' <= c <= 'Z'
    ||| c == '.'
    ||| c == '-'
    ||| c == '+'
}

/// At `at` the document has the title of a section for exactly the
/// version that `marker` names: the marker stands there, and what follows
/// it does not continue the version.
pub open spec fn section_at(doc: Seq<char>, marker: Seq<char>, at: int) -> bool {
    &&& occurs_at(doc, marker, at)
    &&& (at + marker.len() == doc.len() || !is_version_char(doc[at + marker.len()]))
}

/// The document has a section for `version`.
pub open spec fn has_section(doc: Seq<char>, version: VersionModel) -> bool {
    exists|at: int| section_at(doc, section_marker(version), at)
}

/// The title of a section: the version, where one is given, and the date.
pub open spec fn section_title(version: Option<VersionModel>, date: Seq<char>) -> Seq<char> {
    match version {
        Some(v) => section_marker(v) + " ("@ + date + ")"@,
        None => "## "@ + date,
    }
}

/// One line per commit, in the order of the commits: `lead`, then the
/// subject of the commit.
pub open spec fn bullets(commits: Seq<CommitModel>, lead: Seq<char>) -> Seq<char>
    decreases commits.len(),
{
    if commits.len() == 0 {
        Seq::empty()
    } else {
        bullets(commits.drop_last(), lead) + lead + commits.last().subject + seq!['\n']
    }
}

/// A changelog section: the title, an empty line, and a bullet per
/// commit, or a note that there are none.
pub open spec fn section(commits: Seq<CommitModel>, version: Option<VersionModel>, date: Seq<char>) -> Seq<
    char,
> {
    section_title(version, date) + "\n\n"@ + (if commits.len() == 0 {
        "No commits since last version\n"@
    } else {
        bullets(commits, "- "@)
    })
}

/// The summary of the commits for the terminal.
pub open spec fn compact_list(commits: Seq<CommitModel>) -> Seq<char> {
    if commits.len() == 0 {
        "No commits since last version"@
    } else {
        bullets(commits, " - "@)
    }
}

/// The changelog to start from: what is on disk, or the bare header
/// where there is no file or an empty one.
pub open spec fn initial_contents(on_disk: Option<Seq<char>>) -> Seq<char> {
    match on_disk {
        Some(text) => if text.len() == 0 {
            changelog_header()
        } else {
            text
        },
        None => changelog_header(),
    }
}

/// What merging `entry` as the section of `version` into `doc` comes to:
/// the entry and a line feed go directly below the header, and all that
/// stood below the header follows unchanged.
pub open spec fn merged(doc: Seq<char>, version: VersionModel, entry: Seq<char>) -> Result<
    Seq<char>,
    ReleaseError,
> {
    if has_section(doc, version) {
        Err(ReleaseError::DuplicateVersionEntry)
    } else if !starts_with(doc, changelog_header()) {
        Err(ReleaseError::MalformedChangelog)
    } else {
        Ok(
            changelog_header() + entry + seq!['\n'] + doc.subrange(
                changelog_header().len() as int,
                doc.len() as int,
            ),
        )
    }
}

/// `entry` is a section of `version`: it begins with the title of one.
pub open spec fn is_section_of(entry: Seq<char>, version: VersionModel) -> bool {
    section_at(entry, section_marker(version), 0)
}

/// A section rendered for a version is a section of that version.
pub proof fn lemma_rendered_is_section(
    commits: Seq<CommitModel>,
    version: VersionModel,
    date: Seq<char>,
)
    ensures
        is_section_of(section(commits, Some(version), date), version),
{
    reveal_strlit(" (");
    let marker = section_marker(version);
    let text = section(commits, Some(version), date);
    assert(text.subrange(0, marker.len() as int) =~= marker);
    assert(text[marker.len() as int] == ' ');
}

/// Merging a section of a version into a changelog that already took a
/// section of that version fails with `DuplicateVersionEntry`.
pub proof fn lemma_merge_twice_fails(
    doc: Seq<char>,
    version: VersionModel,
    first: Seq<char>,
    second: Seq<char>,
)
    requires
        is_section_of(first, version),
        merged(doc, version, first) is Ok,
    ensures
        merged(merged(doc, version, first)->Ok_0, version, second) == Err::<
            Seq<char>,
            ReleaseError,
        >(ReleaseError::DuplicateVersionEntry),
{
    let marker = section_marker(version);
    let header = changelog_header();
    let after = merged(doc, version, first)->Ok_0;
    let at = header.len() as int;
    assert(first.subrange(0, marker.len() as int) == marker);
    assert(after.subrange(at, at + marker.len()) =~= first.subrange(0, marker.len() as int));
    if marker.len() == first.len() {
        assert(after[at + marker.len()] == '\n');
    } else {
        assert(after[at + marker.len()] == first[marker.len() as int]);
    }
    assert(section_at(after, marker, at));
}

/// Of two sections merged one after the other, the later one stands
/// above the earlier one, both stand below the header, and what the
/// changelog held below its header follows them unchanged.
pub proof fn lemma_merge_order(
    doc: Seq<char>,
    earlier: VersionModel,
    first: Seq<char>,
    later: VersionModel,
    second: Seq<char>,
)
    requires
        merged(doc, earlier, first) is Ok,
        merged(merged(doc, earlier, first)->Ok_0, later, second) is Ok,
    ensures
        merged(merged(doc, earlier, first)->Ok_0, later, second)->Ok_0 == changelog_header()
            + second + seq!['\n'] + first + seq!['\n'] + doc.subrange(
            changelog_header().len() as int,
            doc.len() as int,
        ),
{
    let header = changelog_header();
    let after = merged(doc, earlier, first)->Ok_0;
    let rest = doc.subrange(header.len() as int, doc.len() as int);
    assert(after.subrange(header.len() as int, after.len() as int) =~= first + seq!['\n'] + rest);
    assert(merged(after, later, second)->Ok_0 =~= header + second + seq!['\n'] + first
        + seq!['\n'] + rest);
}

/// Whether `c` can stand in the written form of a version.
fn version_char(c: char) -> (out: bool)
    ensures
        out == is_version_char(c),
{
    ('0' <= c && c <= '9') || ('a' <= c && c <= 'z') || ('A' <= c && c <= 'Z') || c == '.' || c
        == '-' || c == '+'
}

/// Whether the document has the title of a section for exactly the
/// version that `marker` names.
fn find_section(doc: &Vec<char>, marker: &Vec<char>) -> (out: bool)
    ensures
        out == exists|at: int| section_at(doc@, marker@, at),
{
    let mut from: usize = 0;
    loop
        invariant
            forall|k: int| 0 <= k < from ==> !section_at(doc@, marker@, k),
        decreases doc.len() + 1 - from,
    {
        proof {
            lemma_find_from(doc@, marker@, from as int);
        }
        match find(doc, marker, from) {
            Some(at) => {
                let end = at + marker.len();
                if end == doc.len() || !version_char(doc[end]) {
                    assert(section_at(doc@, marker@, at as int));
                    return true;
                }
                from = at + 1;
            },
            None => {
                return false;
            },
        }
    }
}

/// Appends a line per commit to `out`.
fn push_bullets(out: &mut Vec<char>, commits: &[Commit], lead: &str)
    ensures
        final(out)@ == old(out)@ + bullets(commit_views(commits@), lead@),
{
    let ghost all = commit_views(commits@);
    let mut i: usize = 0;
    assert(all.take(0) =~= Seq::<CommitModel>::empty());
    assert(out@ =~= old(out)@ + bullets(all.take(0), lead@));
    while i < commits.len()
        invariant
            i <= commits.len(),
            all == commit_views(commits@),
            out@ == old(out)@ + bullets(all.take(i as int), lead@),
        decreases commits.len() - i,
    {
        let ghost before = out@;
        push_str(out, lead);
        let subject = commits[i].compact();
        push_str(out, subject.as_str());
        out.push('\n');
        proof {
            let upto = all.take(i + 1);
            assert(upto.drop_last() =~= all.take(i as int));
            assert(upto.last() == commits@[i as int]@);
            assert(out@ =~= old(out)@ + bullets(upto, lead@));
        }
        i += 1;
    }
    assert(all.take(commits.len() as int) =~= all);
}

/// A day of the calendar.
#[derive(Clone, Copy, Debug, PartialEq, Eq, Structural)]
pub struct CalendarDate {
    pub year: i32,
    pub month: u32,
    pub day: u32,
}

/// The year as an ISO date writes it: with four digits from 0 to 9999,
/// with a plus sign above that, and with a minus sign and four digits
/// below zero.
pub open spec fn iso_year(year: int) -> Seq<char> {
    if year < 0 {
        seq!['-'] + padded((-year) as nat, 4)
    } else if year <= 9999 {
        padded(year as nat, 4)
    } else {
        seq!['+'] + decimal(year as nat)
    }
}

/// The date as ISO writes it: year, month and day with dashes between
/// them, month and day with two digits.
pub open spec fn iso_date_text(year: int, month: int, day: int) -> Seq<char> {
    iso_year(year) + seq!['-'] + padded(month as nat, 2) + seq!['-'] + padded(day as nat, 2)
}

/// `date` is the written form of some day of the calendar.
pub open spec fn is_iso_date(date: Seq<char>) -> bool {
    exists|year: int, month: int, day: int|
        1 <= month <= 12 && 1 <= day <= 31 && date == #[trigger] iso_date_text(year, month, day)
}

/// The date as ISO writes it, for example `2020-10-14`.
pub fn iso_date(date: CalendarDate) -> (out: String)
    ensures
        out@ == iso_date_text(date.year as int, date.month as int, date.day as int),
{
    let mut chars: Vec<char> = Vec::new();
    let year: i64 = date.year as i64;
    if year < 0 {
        chars.push('-');
        push_padded(&mut chars, (0 - year) as u64, 4);
    } else if year <= 9999 {
        push_padded(&mut chars, year as u64, 4);
    } else {
        chars.push('+');
        push_decimal(&mut chars, year as u64);
    }
    chars.push('-');
    push_padded(&mut chars, date.month as u64, 2);
    chars.push('-');
    push_padded(&mut chars, date.day as u64, 2);
    assert(chars@ =~= iso_date_text(date.year as int, date.month as int, date.day as int));
    from_chars(&chars)
}

/// Calls `chrono::Local::now` and takes the local date of that moment
/// apart with `Datelike::year`, `month` and `day`. Which day comes back
/// depends on the clock and the time zone; the month is one of the
/// twelve and the day one of at most 31.
#[verifier::external_body]
fn today() -> (out: CalendarDate)
    ensures
        1 <= out.month <= 12,
        1 <= out.day <= 31,
{
    let now = chrono::Local::now().date_naive();
    CalendarDate {
        year: chrono::Datelike::year(&now),
        month: chrono::Datelike::month(&now),
        day: chrono::Datelike::day(&now),
    }
}

/// The version as a mathematical value, where one is given.
pub open spec fn version_view(version: Option<&SemanticVersion>) -> Option<VersionModel> {
    match version {
        Some(v) => Some(v@),
        None => None,
    }
}

/// The text as a mathematical value, where one is given.
pub open spec fn text_view(text: Option<String>) -> Option<Seq<char>> {
    match text {
        Some(t) => Some(t@),
        None => None,
    }
}

/// The result is the text that `expected` names, or its failure.
pub open spec fn gives(out: Result<String, ReleaseError>, expected: Result<Seq<char>, ReleaseError>) -> bool {
    match expected {
        Ok(text) => out is Ok && out->Ok_0@ == text,
        Err(e) => out == Err::<String, ReleaseError>(e),
    }
}

/// `out` is what generating the changelog on `date` comes to: the
/// commits of the log and the changelog with their section merged in, or
/// the failure of the merge.
pub open spec fn generated_on(
    out: Result<(Vec<Commit>, String), ReleaseError>,
    raw_log: Seq<char>,
    on_disk: Option<Seq<char>>,
    version: VersionModel,
    date: Seq<char>,
) -> bool {
    match merged(
        initial_contents(on_disk),
        version,
        section(log_commits(raw_log), Some(version), date),
    ) {
        Ok(text) => out is Ok && commit_views(out->Ok_0.0@) == log_commits(raw_log)
            && out->Ok_0.1@ == text,
        Err(e) => out == Err::<(Vec<Commit>, String), ReleaseError>(e),
    }
}

/// Keeps the changelog of a project.
#[derive(Debug)]
pub struct ChangelogGenerator {}

impl ChangelogGenerator {
    pub fn new() -> (out: Self) {
        ChangelogGenerator {  }
    }

    /// Renders the section for `version` with `date` as its date: the
    /// title `## v<version> (<date>)`, or `## <date>` where no version is
    /// given, an empty line, and then a line `- <subject>` per commit in
    /// the order given, or `No commits since last version`.
    pub fn markdown_changelog_on(
        &self,
        commits: &[Commit],
        version: Option<&SemanticVersion>,
        date: &str,
    ) -> (out: String)
        ensures
            out@ == section(commit_views(commits@), version_view(version), date@),
    {
        let mut chars: Vec<char> = Vec::new();
        match version {
            Some(v) => {
                push_str(&mut chars, "## v");
                let text = v.to_string();
                push_str(&mut chars, text.as_str());
                push_str(&mut chars, " (");
                push_str(&mut chars, date);
                push_str(&mut chars, ")");
            },
            None => {
                push_str(&mut chars, "## ");
                push_str(&mut chars, date);
            },
        }
        push_str(&mut chars, "\n\n");
        if commits.len() == 0 {
            push_str(&mut chars, "No commits since last version\n");
        } else {
            push_bullets(&mut chars, commits, "- ");
        }
        let out = from_chars(&chars);
        assert(out@ =~= section(commit_views(commits@), version_view(version), date@));
        out
    }

    /// Renders the summary of the commits for the terminal: a line
    /// ` - <subject>` per commit, or `No commits since last version`.
    pub fn compact_changelog(&self, commits: &[Commit]) -> (out: String)
        ensures
            out@ == compact_list(commit_views(commits@)),
    {
        if commits.len() == 0 {
            return "No commits since last version".to_owned();
        }
        let mut chars: Vec<char> = Vec::new();
        push_bullets(&mut chars, commits, " - ");
        let out = from_chars(&chars);
        assert(out@ =~= compact_list(commit_views(commits@)));
        out
    }

    /// Merges `new_entry` into the changelog `contents` as the section
    /// of `version`, directly below the header.
    ///
    /// Fails with `DuplicateVersionEntry` where the changelog already has
    /// a section for exactly this version, and otherwise with
    /// `MalformedChangelog` where it does not begin with the header.
    pub fn insert_entry(&self, contents: String, version: &SemanticVersion, new_entry: String) -> (out:
        Result<String, ReleaseError>)
        ensures
            gives(out, merged(contents@, version@, new_entry@)),
    {
        let doc = to_chars(contents.as_str());
        let mut marker: Vec<char> = Vec::new();
        push_str(&mut marker, "## v");
        let text = version.to_string();
        push_str(&mut marker, text.as_str());
        assert(marker@ =~= section_marker(version@));
        if find_section(&doc, &marker) {
            return Err(ReleaseError::DuplicateVersionEntry);
        }
        let header = to_chars(CHANGELOG_HEADER);
        if !matches_at(&doc, &header, 0) {
            return Err(ReleaseError::MalformedChangelog);
        }
        let mut chars: Vec<char> = Vec::new();
        push_str(&mut chars, CHANGELOG_HEADER);
        push_str(&mut chars, new_entry.as_str());
        chars.push('\n');
        let mut rest = slice(&doc, header.len(), doc.len());
        chars.append(&mut rest);
        let out = from_chars(&chars);
        assert(out@ =~= merged(contents@, version@, new_entry@)->Ok_0);
        Ok(out)
    }

    /// The changelog to start from, given what was read from disk: the
    /// bare header where there was no file or an empty one.
    pub fn read_changelog_contents(&self, on_disk: Option<String>) -> (out: String)
        ensures
            out@ == initial_contents(text_view(on_disk)),
    {
        match on_disk {
            Some(text) => if text.as_str().is_empty() {
                CHANGELOG_HEADER.to_owned()
            } else {
                text
            },
            None => CHANGELOG_HEADER.to_owned(),
        }
    }

    /// The text of the changelog after `new_entry` has been merged into
    /// what was read from disk.
    pub fn write_changelog(
        &self,
        on_disk: Option<String>,
        version: &SemanticVersion,
        new_entry: String,
    ) -> (out: Result<String, ReleaseError>)
        ensures
            gives(out, merged(initial_contents(text_view(on_disk)), version@, new_entry@)),
    {
        let contents = self.read_changelog_contents(on_disk);
        self.insert_entry(contents, version, new_entry)
    }

    /// Renders the section for `version` with today's date in its ISO
    /// form, as `markdown_changelog_on` renders it for a given date.
    pub fn markdown_changelog(&self, commits: &[Commit], version: Option<&SemanticVersion>) -> (out:
        String)
        ensures
            exists|date: Seq<char>|
                is_iso_date(date) && out@ == #[trigger] section(
                    commit_views(commits@),
                    version_view(version),
                    date,
                ),
    {
        let day = today();
        let date = iso_date(day);
        assert(is_iso_date(date@)) by {
            assert(date@ == iso_date_text(day.year as int, day.month as int, day.day as int));
        }
        self.markdown_changelog_on(commits, version, date.as_str())
    }

    /// The text of the changelog after the section that today's date and
    /// the commits give for `version` has been merged into what was read
    /// from disk.
    pub fn update_changelog(
        &self,
        on_disk: Option<String>,
        commits: &[Commit],
        version: &SemanticVersion,
    ) -> (out: Result<String, ReleaseError>)
        ensures
            exists|date: Seq<char>|
                is_iso_date(date) && gives(
                    out,
                    merged(
                        initial_contents(text_view(on_disk)),
                        version@,
                        #[trigger] section(commit_views(commits@), Some(version@), date),
                    ),
                ),
    {
        let entry = self.markdown_changelog(commits, Some(version));
        let ghost date = choose|date: Seq<char>|
            is_iso_date(date) && entry@ == #[trigger] section(
                commit_views(commits@),
                Some(version@),
                date,
            );
        let out = self.write_changelog(on_disk, version, entry);
        assert(is_iso_date(date) && gives(
            out,
            merged(
                initial_contents(text_view(on_disk)),
                version@,
                section(commit_views(commits@), Some(version@), date),
            ),
        ));
        out
    }

    /// Reads the commits since the last release from the output of the
    /// log and merges their section for `new_ver` into the changelog
    /// that was read from disk. Gives the commits and the new text of
    /// the changelog.
    pub fn generate_changelog(
        &self,
        raw_log: &str,
        on_disk: Option<String>,
        new_ver: &SemanticVersion,
    ) -> (out: Result<(Vec<Commit>, String), ReleaseError>)
        ensures
            exists|date: Seq<char>|
                is_iso_date(date) && #[trigger] generated_on(
                    out,
                    raw_log@,
                    text_view(on_disk),
                    new_ver@,
                    date,
                ),
    {
        let commits = parse_log(raw_log);
        let updated = self.update_changelog(on_disk, commits.as_slice(), new_ver);
        let ghost date = choose|date: Seq<char>|
            is_iso_date(date) && gives(
                updated,
                merged(
                    initial_contents(text_view(on_disk)),
                    new_ver@,
                    #[trigger] section(commit_views(commits@), Some(new_ver@), date),
                ),
            );
        let out = match updated {
            Ok(text) => Ok((commits, text)),
            Err(e) => Err(e),
        };
        assert(is_iso_date(date) && generated_on(
            out,
            raw_log@,
            text_view(on_disk),
            new_ver@,
            date,
        ));
        out
    }
}

} // verus!
