//! What the release needs of the version-control tool: the arguments of
//! each call, and what its output means. Running the tool is left to the
//! caller.

use vstd::prelude::*;
use crate::commit::{decoded, Commit, CommitModel};
use crate::text::{
    byte_len, decimal, from_chars, has_prefix, push_decimal, push_str, slice, split, split_from,
    split_text, starts_with, to_chars, trimmed, trimmed_exceeds,
};

verus! {

/// The marker that the log format puts behind each record.
pub open spec fn sentinel() -> Seq<char> {
    seq!['E', 'N', 'D']
}

/// The subject is one that a release writes itself: such commits never
/// show in a changelog.
pub open spec fn is_release_noise(subject: Seq<char>) -> bool {
    ||| starts_with(subject, "chore: releasing"@)
    ||| starts_with(subject, "chore: beginning development on"@)
    ||| starts_with(subject, "docs: updating changelog"@)
}

/// The piece of log output is long enough to hold a record: without the
/// white space around it, it takes more than two bytes.
pub open spec fn is_record(fragment: Seq<char>) -> bool {
    byte_len(trimmed(fragment)) > 2
}

/// The commits that the pieces of a log stand for, in the order of the
/// pieces: each piece that is a record is decoded, and the commits that a
/// release wrote itself are left out.
pub open spec fn commits_of(fragments: Seq<Seq<char>>) -> Seq<CommitModel>
    decreases fragments.len(),
{
    if fragments.len() == 0 {
        Seq::empty()
    } else {
        let before = commits_of(fragments.drop_last());
        let commit = decoded(fragments.last());
        if is_record(fragments.last()) && !is_release_noise(commit.subject) {
            before.push(commit)
        } else {
            before
        }
    }
}

/// No commit that is read from a log is one that a release wrote.
pub proof fn lemma_no_release_noise(fragments: Seq<Seq<char>>)
    ensures
        forall|i: int|
            0 <= i < commits_of(fragments).len() ==> !is_release_noise(
                #[trigger] commits_of(fragments)[i].subject,
            ),
    decreases fragments.len(),
{
    if fragments.len() > 0 {
        lemma_no_release_noise(fragments.drop_last());
        let before = commits_of(fragments.drop_last());
        assert forall|i: int| 0 <= i < commits_of(fragments).len() implies !is_release_noise(
            #[trigger] commits_of(fragments)[i].subject,
        ) by {
            if i < before.len() {
                assert(commits_of(fragments)[i] == before[i]);
            }
        }
    }
}

/// The commits that a log output stands for.
pub open spec fn log_commits(raw: Seq<char>) -> Seq<CommitModel> {
    commits_of(split(raw, sentinel()))
}

/// The commits as mathematical values.
pub open spec fn commit_views(commits: Seq<Commit>) -> Seq<CommitModel> {
    Seq::new(commits.len(), |i: int| commits[i]@)
}

/// Whether a commit with this subject is one that a release wrote.
pub fn release_noise(subject: &str) -> (out: bool)
    ensures
        out == is_release_noise(subject@),
{
    let chars = to_chars(subject);
    has_prefix(&chars, "chore: releasing") || has_prefix(&chars, "chore: beginning development on")
        || has_prefix(&chars, "docs: updating changelog")
}

/// Reads the commits from the output of the log, which holds one JSON
/// record per commit with the sentinel `END` behind each.
///
/// The output is cut at the sentinels. Pieces of at most two bytes, white
/// space around them not counted, are dropped. Each other piece is
/// decoded; one that cannot be decoded gives the empty commit. Commits
/// that a release wrote itself are dropped. The order of the log is kept.
pub fn parse_log(raw: &str) -> (out: Vec<Commit>)
    ensures
        commit_views(out@) == log_commits(raw@),
        forall|i: int| 0 <= i < out@.len() ==> !is_release_noise(#[trigger] out@[i].subject@),
{
    let chars = to_chars(raw);
    let sep = to_chars("END");
    proof {
        reveal_strlit("END");
        assert(sep@ =~= sentinel());
    }
    let pieces = split_text(&chars, &sep);
    let ghost fragments = split(raw@, sentinel());
    let mut out: Vec<Commit> = Vec::new();
    let mut i: usize = 0;
    assert(fragments.take(0) =~= Seq::empty());
    while i < pieces.len()
        invariant
            i <= pieces.len(),
            pieces@.len() == fragments.len(),
            forall|k: int| 0 <= k < pieces@.len() ==> pieces@[k]@ == #[trigger] fragments[k],
            commit_views(out@) == commits_of(fragments.take(i as int)),
        decreases pieces.len() - i,
    {
        let piece = &pieces[i];
        proof {
            let upto = fragments.take(i + 1);
            assert(upto.drop_last() =~= fragments.take(i as int));
            assert(upto.last() == fragments[i as int]);
        }
        if trimmed_exceeds(piece, 2) {
            let text = from_chars(piece);
            let commit = Commit::from(text.as_str());
            if !release_noise(commit.subject.as_str()) {
                let ghost before = out@;
                out.push(commit);
                assert(commit_views(out@) =~= commit_views(before).push(commit@));
            }
        }
        i += 1;
    }
    assert(fragments.take(pieces.len() as int) =~= fragments);
    proof {
        lemma_no_release_noise(fragments);
        assert forall|i: int| 0 <= i < out@.len() implies !is_release_noise(
            #[trigger] out@[i].subject@,
        ) by {
            assert(commit_views(out@)[i].subject == out@[i].subject@);
        }
    }
    out
}

/// What a run of the version-control tool gave: whether it succeeded,
/// and what it wrote to its two outputs.
#[derive(Debug, PartialEq, Eq)]
pub struct GitOutput {
    pub success: bool,
    pub stdout: String,
    pub stderr: String,
}

/// The texts as mathematical values.
pub open spec fn texts(strings: Seq<String>) -> Seq<Seq<char>> {
    Seq::new(strings.len(), |i: int| strings[i]@)
}

/// `line` without a carriage return at its end.
pub open spec fn strip_cr(line: Seq<char>) -> Seq<char> {
    if line.len() > 0 && line.last() == '\r' {
        line.drop_last()
    } else {
        line
    }
}

/// The lines of `text`. A line ends with a line feed, or with a carriage
/// return and a line feed; neither belongs to the line. What stands
/// behind the last line feed is a line too, unless it is empty.
pub open spec fn lines_of(text: Seq<char>) -> Seq<Seq<char>> {
    let pieces = split(text, seq!['\n']);
    let ended = Seq::new((pieces.len() - 1) as nat, |i: int| strip_cr(pieces[i]));
    if pieces.last().len() == 0 {
        ended
    } else {
        ended.push(pieces.last())
    }
}

/// The texts one behind the other.
pub open spec fn joined(parts: Seq<Seq<char>>) -> Seq<char>
    decreases parts.len(),
{
    if parts.len() == 0 {
        Seq::empty()
    } else {
        joined(parts.drop_last()) + parts.last()
    }
}

/// Cutting a text gives at least one piece.
pub proof fn lemma_split_nonempty(hay: Seq<char>, sep: Seq<char>, from: int)
    requires
        sep.len() > 0,
        0 <= from,
    ensures
        split_from(hay, sep, from).len() >= 1,
{
}

/// The lines of what the tool wrote.
pub fn read_lines(stdout: &str) -> (out: Vec<String>)
    ensures
        texts(out@) == lines_of(stdout@),
{
    let chars = to_chars(stdout);
    let mut sep: Vec<char> = Vec::new();
    sep.push('\n');
    assert(sep@ =~= seq!['\n']);
    let pieces = split_text(&chars, &sep);
    proof {
        lemma_split_nonempty(stdout@, seq!['\n'], 0);
    }
    let ghost parts = split(stdout@, seq!['\n']);
    let ghost ended = Seq::new((parts.len() - 1) as nat, |i: int| strip_cr(parts[i]));
    let last = pieces.len() - 1;
    let mut out: Vec<String> = Vec::new();
    let mut i: usize = 0;
    while i < last
        invariant
            i <= last,
            last == pieces.len() - 1,
            pieces@.len() == parts.len(),
            forall|k: int| 0 <= k < pieces@.len() ==> pieces@[k]@ == #[trigger] parts[k],
            ended == Seq::new((parts.len() - 1) as nat, |i: int| strip_cr(parts[i])),
            texts(out@) == ended.take(i as int),
        decreases last - i,
    {
        let piece = &pieces[i];
        let n = piece.len();
        let line = if n > 0 && piece[n - 1] == '\r' {
            let cut = slice(piece, 0, n - 1);
            assert(cut@ =~= piece@.drop_last());
            from_chars(&cut)
        } else {
            from_chars(piece)
        };
        let ghost before = out@;
        out.push(line);
        assert(texts(out@) =~= texts(before).push(line@));
        i += 1;
        assert(texts(out@) =~= ended.take(i as int));
    }
    assert(ended.take(last as int) =~= ended);
    if pieces[last].len() > 0 {
        let line = from_chars(&pieces[last]);
        let ghost before = out@;
        out.push(line);
        assert(texts(out@) =~= texts(before).push(line@));
    }
    out
}

/// What the tool wrote, without its line ends.
pub fn read_text(stdout: &str) -> (out: String)
    ensures
        out@ == joined(lines_of(stdout@)),
{
    let lines = read_lines(stdout);
    let mut chars: Vec<char> = Vec::new();
    let mut i: usize = 0;
    let ghost all = texts(lines@);
    assert(all.take(0) =~= Seq::<Seq<char>>::empty());
    while i < lines.len()
        invariant
            i <= lines.len(),
            all == texts(lines@),
            chars@ == joined(all.take(i as int)),
        decreases lines.len() - i,
    {
        push_str(&mut chars, lines[i].as_str());
        proof {
            let upto = all.take(i + 1);
            assert(upto.drop_last() =~= all.take(i as int));
            assert(upto.last() == lines@[i as int]@);
        }
        i += 1;
    }
    assert(all.take(lines.len() as int) =~= all);
    from_chars(&chars)
}

/// What a failed run reports: what it wrote to its error output, or to
/// its standard output where the error output is empty.
pub open spec fn failure_text(output: GitOutput) -> Seq<char> {
    if output.stderr@.len() > 0 {
        output.stderr@
    } else {
        output.stdout@
    }
}

/// Tells a run that succeeded from one that failed: the first is handed
/// on, the second gives what it reported.
pub fn git(output: GitOutput) -> (out: Result<GitOutput, String>)
    ensures
        output.success ==> out == Ok::<GitOutput, String>(output),
        !output.success ==> out is Err && out->Err_0@ == failure_text(output),
{
    if output.success {
        Ok(output)
    } else if !output.stderr.as_str().is_empty() {
        Err(output.stderr)
    } else {
        Err(output.stdout)
    }
}

/// Whether the working directory lies in a repository, by the run of
/// `rev-parse --is-inside-work-tree`.
pub fn in_git_repository(output: GitOutput) -> (out: Result<bool, String>)
    ensures
        output.success ==> out == Ok::<bool, String>(true),
        !output.success ==> out is Err && out->Err_0@ == failure_text(output),
{
    match git(output) {
        Ok(o) => Ok(o.success),
        Err(e) => Err(e),
    }
}

/// The first commit of the history, by the run of the log in reverse
/// order: its first line. A log without lines means that there is no
/// commit yet.
pub fn first_commit(output: GitOutput) -> (out: Result<String, String>)
    ensures
        !output.success ==> out is Err && out->Err_0@ == failure_text(output),
        output.success && lines_of(output.stdout@).len() == 0 ==> out is Err && out->Err_0@
            == "No commits have been made"@,
        output.success && lines_of(output.stdout@).len() > 0 ==> out is Ok && out->Ok_0@
            == lines_of(output.stdout@)[0],
{
    let stdout = match git(output) {
        Ok(o) => o.stdout,
        Err(e) => {
            return Err(e);
        },
    };
    let lines = read_lines(stdout.as_str());
    if lines.len() == 0 {
        Err("No commits have been made".to_owned())
    } else {
        assert(texts(lines@)[0] == lines@[0]@);
        Ok(lines[0].clone())
    }
}

/// The tags that a run of `for-each-ref` lists, one per line.
pub fn last_tags(output: GitOutput) -> (out: Result<Vec<String>, String>)
    ensures
        !output.success ==> out is Err && out->Err_0@ == failure_text(output),
        output.success ==> out is Ok && texts(out->Ok_0@) == lines_of(output.stdout@),
{
    match git(output) {
        Ok(o) => Ok(read_lines(o.stdout.as_str())),
        Err(e) => Err(e),
    }
}

/// The last tag, by a run of `for-each-ref` that lists one tag: the last
/// line of what it wrote, or none where it wrote no line.
pub fn last_tag(output: GitOutput) -> (out: Result<Option<String>, String>)
    ensures
        !output.success ==> out is Err && out->Err_0@ == failure_text(output),
        output.success && lines_of(output.stdout@).len() == 0 ==> out == Ok::<
            Option<String>,
            String,
        >(None),
        output.success && lines_of(output.stdout@).len() > 0 ==> out is Ok && out->Ok_0 is Some
            && out->Ok_0->Some_0@ == lines_of(output.stdout@).last(),
{
    let ghost lines = lines_of(output.stdout@);
    match last_tags(output) {
        Ok(tags) => {
            let mut tags = tags;
            let ghost before = tags@;
            let last = tags.pop();
            proof {
                if before.len() > 0 {
                    assert(texts(before)[before.len() - 1] == before[before.len() - 1]@);
                }
            }
            Ok(last)
        },
        Err(e) => Err(e),
    }
}

/// The commits of a run of the log in the record format: see
/// `parse_log`, which reads what the run wrote, its line ends taken out.
pub fn commits_in_log(output: GitOutput) -> (out: Result<Vec<Commit>, String>)
    ensures
        !output.success ==> out is Err && out->Err_0@ == failure_text(output),
        output.success ==> out is Ok && commit_views(out->Ok_0@) == log_commits(
            joined(lines_of(output.stdout@)),
        ),
{
    match git(output) {
        Ok(o) => {
            let text = read_text(o.stdout.as_str());
            Ok(parse_log(text.as_str()))
        },
        Err(e) => Err(e),
    }
}

/// Whether the commit was made: a run of `commit` that failed means that
/// nothing was staged.
pub fn commit(output: GitOutput) -> (out: Result<bool, String>)
    ensures
        output.success ==> out == Ok::<bool, String>(true),
        !output.success ==> out is Err && out->Err_0@ == "\nNo staged changes detected. Exiting."@,
{
    match git(output) {
        Ok(_) => Ok(true),
        Err(_) => Err("\nNo staged changes detected. Exiting.".to_owned()),
    }
}

/// The commit that a tag points to, by the run of `rev-list`: what it
/// wrote, without its line ends.
pub fn get_commit_for_tag(output: GitOutput) -> (out: Result<String, String>)
    ensures
        !output.success ==> out is Err && out->Err_0@ == failure_text(output),
        output.success ==> out is Ok && out->Ok_0@ == joined(lines_of(output.stdout@)),
{
    match git(output) {
        Ok(o) => Ok(read_text(o.stdout.as_str())),
        Err(e) => Err(e),
    }
}

/// The format that makes the log write one JSON record per commit, with
/// the sentinel behind it.
pub const LOG_FORMAT: &'static str =
    "--pretty=format:{ \"commit\": \"%H\", \"abbreviated_commit\": \"%h\", \"refs\": \"%D\", \"subject\": \"%s\", \"sanitized_subject_line\": \"%f\", \"commit_notes\": \"\", \"author\": { \"name\": \"%aN\", \"email\": \"%aE\", \"date\": \"%aD\" }, \"committer\": { \"name\": \"%cN\", \"email\": \"%cE\", \"date\": \"%cD\" }}END";

/// A call of the version-control tool.
#[derive(Debug, PartialEq, Eq)]
pub enum GitCommand {
    /// Asks whether the working directory lies in a repository.
    InsideWorkTree,
    /// Lists the commits from the oldest on, one hash per line.
    FirstCommit,
    /// Lists that many tags, the one of the latest commit first.
    LastTags(i32),
    /// Lists the commits in the record format; the arguments name the
    /// range.
    Log(Vec<String>),
    /// Stages the files.
    Add(Vec<String>),
    /// Commits what is staged, with the message.
    Commit(String),
    /// Sets the tag.
    Tag(String),
    /// Pushes the branch to `origin`.
    Push(String),
    /// Pushes the tag to `origin`.
    PushTag(String),
    /// Asks for the commit that the tag points to.
    CommitForTag(String),
}

/// `n` written in decimal, with a minus sign where it is negative.
pub open spec fn signed_decimal(n: int) -> Seq<char> {
    if n < 0 {
        seq!['-'] + decimal((-n) as nat)
    } else {
        decimal(n as nat)
    }
}

impl GitCommand {
    /// The arguments with which the tool is called.
    pub open spec fn argument_texts(self) -> Seq<Seq<char>> {
        match self {
            GitCommand::InsideWorkTree => seq!["rev-parse"@, "--is-inside-work-tree"@],
            GitCommand::FirstCommit => seq!["log"@, "--reverse"@, "--format=format:%H"@],
            GitCommand::LastTags(n) => seq![
                "for-each-ref"@,
                "--count="@ + signed_decimal(n as int),
                "--sort=-committerdate"@,
                "--format=%(refname:short)"@,
                "refs/tags/*"@,
            ],
            GitCommand::Log(range) => seq!["log"@, LOG_FORMAT@] + texts(range@),
            GitCommand::Add(files) => seq!["add"@] + texts(files@),
            GitCommand::Commit(message) => seq!["commit"@, "-m"@, message@],
            GitCommand::Tag(name) => seq!["tag"@, name@],
            GitCommand::Push(branch) => seq!["push"@, "origin"@, branch@],
            GitCommand::PushTag(name) => seq!["push"@, "origin"@, name@],
            GitCommand::CommitForTag(name) => seq!["rev-list"@, "-n 1"@, name@],
        }
    }

    /// The arguments with which the tool is called.
    pub fn arguments(&self) -> (out: Vec<String>)
        ensures
            texts(out@) == self.argument_texts(),
    {
        let mut out: Vec<String> = Vec::new();
        match self {
            GitCommand::InsideWorkTree => {
                out.push("rev-parse".to_owned());
                out.push("--is-inside-work-tree".to_owned());
            },
            GitCommand::FirstCommit => {
                out.push("log".to_owned());
                out.push("--reverse".to_owned());
                out.push("--format=format:%H".to_owned());
            },
            GitCommand::LastTags(n) => {
                let mut count: Vec<char> = Vec::new();
                push_str(&mut count, "--count=");
                let wide: i64 = *n as i64;
                if wide < 0 {
                    count.push('-');
                    push_decimal(&mut count, (0 - wide) as u64);
                } else {
                    push_decimal(&mut count, wide as u64);
                }
                assert(count@ =~= "--count="@ + signed_decimal(*n as int));
                out.push("for-each-ref".to_owned());
                out.push(from_chars(&count));
                out.push("--sort=-committerdate".to_owned());
                out.push("--format=%(refname:short)".to_owned());
                out.push("refs/tags/*".to_owned());
            },
            GitCommand::Log(range) => {
                out.push("log".to_owned());
                out.push(LOG_FORMAT.to_owned());
                push_all(&mut out, range);
            },
            GitCommand::Add(files) => {
                out.push("add".to_owned());
                push_all(&mut out, files);
            },
            GitCommand::Commit(message) => {
                out.push("commit".to_owned());
                out.push("-m".to_owned());
                out.push(message.clone());
            },
            GitCommand::Tag(name) => {
                out.push("tag".to_owned());
                out.push(name.clone());
            },
            GitCommand::Push(branch) => {
                out.push("push".to_owned());
                out.push("origin".to_owned());
                out.push(branch.clone());
            },
            GitCommand::PushTag(name) => {
                out.push("push".to_owned());
                out.push("origin".to_owned());
                out.push(name.clone());
            },
            GitCommand::CommitForTag(name) => {
                out.push("rev-list".to_owned());
                out.push("-n 1".to_owned());
                out.push(name.clone());
            },
        }
        assert(texts(out@) =~= self.argument_texts());
        out
    }
}

/// Appends copies of `more` to `out`.
fn push_all(out: &mut Vec<String>, more: &Vec<String>)
    ensures
        texts(final(out)@) == texts(old(out)@) + texts(more@),
{
    let mut i: usize = 0;
    assert(texts(out@) =~= texts(old(out)@) + texts(more@).take(0));
    while i < more.len()
        invariant
            i <= more.len(),
            texts(out@) == texts(old(out)@) + texts(more@).take(i as int),
        decreases more.len() - i,
    {
        let ghost before = out@;
        let copy = more[i].clone();
        out.push(copy);
        i += 1;
        assert(texts(out@) =~= texts(before).push(copy@));
        assert(texts(out@) =~= texts(old(out)@) + texts(more@).take(i as int));
    }
    assert(texts(more@).take(more.len() as int) =~= texts(more@));
}

/// Where the log for a changelog starts, given the last tag: at that
/// tag, or, where there is no tag yet, at the first commit, which has to
/// be asked for first with the call that is handed back.
pub fn range_start_step(last_tag: Option<String>) -> (out: Result<String, GitCommand>)
    ensures
        match last_tag {
            Some(tag) => out == Ok::<String, GitCommand>(tag),
            None => out == Err::<String, GitCommand>(GitCommand::FirstCommit),
        },
{
    match last_tag {
        Some(tag) => Ok(tag),
        None => Err(GitCommand::FirstCommit),
    }
}

/// The range of the log from `from`, a tag or a commit, to the head of
/// the main branch.
pub fn log_range(from: &str, main_branch: &str) -> (out: String)
    ensures
        out@ == from@ + ".."@ + main_branch@,
{
    let mut chars: Vec<char> = Vec::new();
    push_str(&mut chars, from);
    push_str(&mut chars, "..");
    push_str(&mut chars, main_branch);
    from_chars(&chars)
}

} // verus!
