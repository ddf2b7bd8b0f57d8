//! Commit records and the adapter that reads them from the output of the
//! version-control log.

use vstd::prelude::*;
use crate::document::{json_as_str, json_get, json_node, json_parse, json_read, member, text_of, Node};

verus! {

/// A person as a mathematical value.
pub struct UserModel {
    pub name: Seq<char>,
    pub email: Seq<char>,
    pub date: Seq<char>,
}

/// A commit as a mathematical value.
pub struct CommitModel {
    pub commit: Seq<char>,
    pub abbreviated_commit: Seq<char>,
    pub refs: Seq<char>,
    pub subject: Seq<char>,
    pub sanitized_subject_line: Seq<char>,
    pub commit_notes: Seq<char>,
    pub author: UserModel,
    pub committer: UserModel,
}

/// Who wrote or committed a change, and when.
#[derive(Debug, PartialEq, Eq)]
pub struct User {
    pub name: String,
    pub email: String,
    pub date: String,
}

/// One commit of the log.
#[derive(Debug, PartialEq, Eq)]
pub struct Commit {
    pub commit: String,
    pub abbreviated_commit: String,
    pub refs: String,
    pub subject: String,
    pub sanitized_subject_line: String,
    pub commit_notes: String,
    pub author: User,
    pub committer: User,
}

impl View for User {
    type V = UserModel;

    open spec fn view(&self) -> UserModel {
        UserModel { name: self.name@, email: self.email@, date: self.date@ }
    }
}

impl View for Commit {
    type V = CommitModel;

    open spec fn view(&self) -> CommitModel {
        CommitModel {
            commit: self.commit@,
            abbreviated_commit: self.abbreviated_commit@,
            refs: self.refs@,
            subject: self.subject@,
            sanitized_subject_line: self.sanitized_subject_line@,
            commit_notes: self.commit_notes@,
            author: self.author@,
            committer: self.committer@,
        }
    }
}

/// The person whose every field is empty.
pub open spec fn empty_user() -> UserModel {
    UserModel { name: Seq::empty(), email: Seq::empty(), date: Seq::empty() }
}

/// The commit whose every field is empty: it stands for a record that
/// could not be read.
pub open spec fn empty_commit() -> CommitModel {
    CommitModel {
        commit: Seq::empty(),
        abbreviated_commit: Seq::empty(),
        refs: Seq::empty(),
        subject: Seq::empty(),
        sanitized_subject_line: Seq::empty(),
        commit_notes: Seq::empty(),
        author: empty_user(),
        committer: empty_user(),
    }
}

impl Default for User {
    fn default() -> (out: Self)
        ensures
            out@ == empty_user(),
    {
        User { name: String::new(), email: String::new(), date: String::new() }
    }
}

impl Default for Commit {
    fn default() -> (out: Self)
        ensures
            out@ == empty_commit(),
    {
        Commit {
            commit: String::new(),
            abbreviated_commit: String::new(),
            refs: String::new(),
            subject: String::new(),
            sanitized_subject_line: String::new(),
            commit_notes: String::new(),
            author: User::default(),
            committer: User::default(),
        }
    }
}

impl Clone for User {
    fn clone(&self) -> (out: Self)
        ensures
            out@ == self@,
    {
        User { name: self.name.clone(), email: self.email.clone(), date: self.date.clone() }
    }
}

impl Clone for Commit {
    fn clone(&self) -> (out: Self)
        ensures
            out@ == self@,
    {
        Commit {
            commit: self.commit.clone(),
            abbreviated_commit: self.abbreviated_commit.clone(),
            refs: self.refs.clone(),
            subject: self.subject.clone(),
            sanitized_subject_line: self.sanitized_subject_line.clone(),
            commit_notes: self.commit_notes.clone(),
            author: self.author.clone(),
            committer: self.committer.clone(),
        }
    }
}

/// The string under `key` in the table `node`, where there is one.
pub open spec fn text_member(node: Node, key: Seq<char>) -> Option<Seq<char>> {
    match member(node, key) {
        Some(value) => text_of(value),
        None => None,
    }
}

/// The person that a record holds under `key`: a table with the strings
/// `name`, `email` and `date`.
pub open spec fn user_member(node: Node, key: Seq<char>) -> Option<UserModel> {
    match member(node, key) {
        Some(user) => if text_member(user, "name"@) is Some && text_member(user, "email"@) is Some
            && text_member(user, "date"@) is Some {
            Some(
                UserModel {
                    name: text_member(user, "name"@)->Some_0,
                    email: text_member(user, "email"@)->Some_0,
                    date: text_member(user, "date"@)->Some_0,
                },
            )
        } else {
            None
        },
        None => None,
    }
}

/// The commit that a record holds: a table with a string under each of
/// the six names of a commit's own fields and a person under `author`
/// and under `committer`.
pub open spec fn commit_of(node: Node) -> Option<CommitModel> {
    if text_member(node, "commit"@) is Some && text_member(node, "abbreviated_commit"@) is Some
        && text_member(node, "refs"@) is Some && text_member(node, "subject"@) is Some
        && text_member(node, "sanitized_subject_line"@) is Some && text_member(
        node,
        "commit_notes"@,
    ) is Some && user_member(node, "author"@) is Some && user_member(node, "committer"@) is Some {
        Some(
            CommitModel {
                commit: text_member(node, "commit"@)->Some_0,
                abbreviated_commit: text_member(node, "abbreviated_commit"@)->Some_0,
                refs: text_member(node, "refs"@)->Some_0,
                subject: text_member(node, "subject"@)->Some_0,
                sanitized_subject_line: text_member(node, "sanitized_subject_line"@)->Some_0,
                commit_notes: text_member(node, "commit_notes"@)->Some_0,
                author: user_member(node, "author"@)->Some_0,
                committer: user_member(node, "committer"@)->Some_0,
            },
        )
    } else {
        None
    }
}

/// The commit that the text of one record stands for. A text that is no
/// JSON document, or whose document is no commit record, stands for the
/// empty commit.
pub open spec fn decoded(text: Seq<char>) -> CommitModel {
    match json_read(text) {
        Some(node) => match commit_of(node) {
            Some(commit) => commit,
            None => empty_commit(),
        },
        None => empty_commit(),
    }
}

/// The string under `key` in `doc`.
fn json_text(doc: &serde_json::Value, key: &str) -> (out: Option<String>)
    ensures
        match out {
            Some(s) => text_member(json_node(*doc), key@) == Some(s@),
            None => text_member(json_node(*doc), key@) is None,
        },
{
    match json_get(doc, key) {
        Some(value) => match json_as_str(value) {
            Some(s) => Some(s.to_owned()),
            None => None,
        },
        None => None,
    }
}

/// The person under `key` in `doc`.
fn json_user(doc: &serde_json::Value, key: &str) -> (out: Option<User>)
    ensures
        match out {
            Some(user) => user_member(json_node(*doc), key@) == Some(user@),
            None => user_member(json_node(*doc), key@) is None,
        },
{
    let user = match json_get(doc, key) {
        Some(user) => user,
        None => {
            return None;
        },
    };
    let name = json_text(user, "name");
    let email = json_text(user, "email");
    let date = json_text(user, "date");
    match (name, email, date) {
        (Some(name), Some(email), Some(date)) => Some(User { name, email, date }),
        _ => None,
    }
}

/// The commit that the document `doc` holds, where it is a commit record.
fn json_commit(doc: &serde_json::Value) -> (out: Option<Commit>)
    ensures
        match out {
            Some(commit) => commit_of(json_node(*doc)) == Some(commit@),
            None => commit_of(json_node(*doc)) is None,
        },
{
    let commit = json_text(doc, "commit");
    let abbreviated_commit = json_text(doc, "abbreviated_commit");
    let refs = json_text(doc, "refs");
    let subject = json_text(doc, "subject");
    let sanitized_subject_line = json_text(doc, "sanitized_subject_line");
    let commit_notes = json_text(doc, "commit_notes");
    let author = json_user(doc, "author");
    let committer = json_user(doc, "committer");
    match (commit, abbreviated_commit, refs, subject) {
        (Some(commit), Some(abbreviated_commit), Some(refs), Some(subject)) => match (
            sanitized_subject_line,
            commit_notes,
            author,
            committer,
        ) {
            (Some(sanitized_subject_line), Some(commit_notes), Some(author), Some(committer)) => {
                Some(
                    Commit {
                        commit,
                        abbreviated_commit,
                        refs,
                        subject,
                        sanitized_subject_line,
                        commit_notes,
                        author,
                        committer,
                    },
                )
            },
            _ => None,
        },
        _ => None,
    }
}

impl Commit {
    /// The commit in the short form in which a changelog lists it: its
    /// subject.
    pub fn compact(&self) -> (out: String)
        ensures
            out@ == self.subject@,
    {
        self.subject.clone()
    }

    /// The commit that the text of one JSON record stands for. A text
    /// that cannot be read as a commit record gives the empty commit.
    pub fn from(input: &str) -> (out: Commit)
        ensures
            out@ == decoded(input@),
    {
        match json_parse(input) {
            Ok(doc) => match json_commit(&doc) {
                Some(commit) => commit,
                None => Commit::default(),
            },
            Err(_) => Commit::default(),
        }
    }
}

} // verus!
