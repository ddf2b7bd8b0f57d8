//! The project descriptor that carries the version: which format it has,
//! how the version is read from it and written back.

use vstd::prelude::*;
use crate::document::{
    json_as_str, json_get, json_parse, json_pretty, json_read, json_set, json_written, member,
    text_of, toml_as_str, toml_get, toml_parse, toml_read, toml_render, toml_set, toml_written,
    with_member, lemma_with_member, keys, Node,
};
use crate::error::ReleaseError;
use crate::text::{
    ascii_lower, ends_with, extension, extension_of, has_suffix, is_extension_start, spells,
    to_ascii_lower, to_chars,
};
use crate::version::{semver_read, SemanticVersion};

verus! {

/// The formats of descriptor that are understood.
#[derive(Clone, Copy, Debug, PartialEq, Eq, Structural)]
pub enum VersionFiletype {
    /// A TOML document with the version under `package.version`.
    TOML,
    /// A JSON document with the version under `version`.
    JSON,
}

/// The format that the extension of `filename` names, whatever the case
/// of its letters. A name without a dot has no extension and so no
/// format.
pub open spec fn filetype_of(filename: Seq<char>) -> Option<VersionFiletype> {
    match extension(filename) {
        Some(ext) => if ascii_lower(ext) == "toml"@ {
            Some(VersionFiletype::TOML)
        } else if ascii_lower(ext) == "json"@ {
            Some(VersionFiletype::JSON)
        } else {
            None
        },
        None => None,
    }
}

/// `filename` ends in `.toml` or `.json`, in lower case.
pub open spec fn supported(filename: Seq<char>) -> bool {
    ends_with(filename, ".toml"@) || ends_with(filename, ".json"@)
}

/// A file name that is supported has a format: `TOML` where it ends in
/// `.toml`, `JSON` where it ends in `.json`.
pub proof fn lemma_supported_has_filetype(filename: Seq<char>)
    requires
        supported(filename),
    ensures
        ends_with(filename, ".toml"@) ==> filetype_of(filename) == Some(VersionFiletype::TOML),
        ends_with(filename, ".json"@) ==> filetype_of(filename) == Some(VersionFiletype::JSON),
        filetype_of(filename) is Some,
{
    reveal_strlit(".toml");
    reveal_strlit("toml");
    reveal_strlit(".json");
    reveal_strlit("json");
    let n = filename.len() as int;
    let tail = filename.subrange(n - 5, n);
    assert(tail == ".toml"@ || tail == ".json"@);
    assert(tail[0] == '.');
    assert(forall|j: int| 0 <= j < 5 ==> tail[j] == #[trigger] filename[n - 5 + j]);
    assert(filename[n - 5] == tail[0]);
    assert(filename[n - 4] == tail[1]);
    assert(filename[n - 3] == tail[2]);
    assert(filename[n - 2] == tail[3]);
    assert(filename[n - 1] == tail[4]);
    assert(is_extension_start(filename, n - 4));
    let from = choose|from: int| is_extension_start(filename, from);
    if from < n - 4 {
        assert(filename[n - 5] != '.');
    }
    if from > n - 4 {
        assert(filename[from - 1] == '.');
    }
    assert(from == n - 4);
    let ext = extension(filename)->Some_0;
    assert(ext =~= tail.subrange(1, 5));
    if tail == ".toml"@ {
        assert(ascii_lower(ext) =~= "toml"@);
    } else {
        assert(ascii_lower(ext) =~= "json"@);
        assert("json"@[0] != "toml"@[0]);
    }
}

/// A file name without a dot has no format.
pub proof fn lemma_no_dot_no_filetype(filename: Seq<char>)
    requires
        forall|i: int| 0 <= i < filename.len() ==> filename[i] != '.',
    ensures
        filetype_of(filename) is None,
{
    assert forall|from: int| !is_extension_start(filename, from) by {
        if is_extension_start(filename, from) {
            assert(filename[from - 1] == '.');
        }
    }
}

impl VersionFiletype {
    /// The format of a descriptor, by the extension of its file name.
    /// Fails with `UnsupportedFileType` for a name without extension
    /// and for any extension but `toml` and `json`.
    pub fn from_str(filename: &str) -> (out: Result<VersionFiletype, ReleaseError>)
        ensures
            out == match filetype_of(filename@) {
                Some(t) => Ok::<VersionFiletype, ReleaseError>(t),
                None => Err(ReleaseError::UnsupportedFileType),
            },
    {
        let chars = to_chars(filename);
        let ext = match extension_of(&chars) {
            Some(ext) => ext,
            None => {
                return Err(ReleaseError::UnsupportedFileType);
            },
        };
        let low = to_ascii_lower(&ext);
        if spells(&low, "toml") {
            Ok(VersionFiletype::TOML)
        } else if spells(&low, "json") {
            Ok(VersionFiletype::JSON)
        } else {
            Err(ReleaseError::UnsupportedFileType)
        }
    }
}

/// Whether a file of this name can serve as descriptor.
pub fn is_version_file_supported(version_file: &str) -> (out: bool)
    ensures
        out == supported(version_file@),
{
    let chars = to_chars(version_file);
    has_suffix(&chars, ".toml") || has_suffix(&chars, ".json")
}

/// The name of the lock file that goes with a descriptor of the format.
pub open spec fn lockfile_of(version_filetype: VersionFiletype) -> Option<Seq<char>> {
    match version_filetype {
        VersionFiletype::TOML => Some("Cargo.lock"@),
        VersionFiletype::JSON => None,
    }
}

/// The lock file that has to follow a descriptor of this format: a TOML
/// descriptor has one, a JSON descriptor has none.
pub fn get_lockfile(version_filetype: &VersionFiletype) -> (out: Option<String>)
    ensures
        match lockfile_of(*version_filetype) {
            Some(name) => out is Some && out->Some_0@ == name,
            None => out is None,
        },
{
    match version_filetype {
        VersionFiletype::TOML => Some("Cargo.lock".to_owned()),
        VersionFiletype::JSON => None,
    }
}

/// The tree that a text holds when read in the given format.
pub open spec fn document_read(version_filetype: VersionFiletype, text: Seq<char>) -> Option<Node> {
    match version_filetype {
        VersionFiletype::TOML => toml_read(text),
        VersionFiletype::JSON => json_read(text),
    }
}

/// The value under which a document of the format keeps its version.
pub open spec fn version_node(version_filetype: VersionFiletype, doc: Node) -> Option<Node> {
    match version_filetype {
        VersionFiletype::TOML => match member(doc, "package"@) {
            Some(package) => member(package, "version"@),
            None => None,
        },
        VersionFiletype::JSON => member(doc, "version"@),
    }
}

/// The version string of a document, where its version field holds one.
pub open spec fn version_field(version_filetype: VersionFiletype, doc: Node) -> Option<Seq<char>> {
    match version_node(version_filetype, doc) {
        Some(node) => text_of(node),
        None => None,
    }
}

/// `doc` with the value of its version field replaced by the string
/// `version`.
pub open spec fn with_version(version_filetype: VersionFiletype, doc: Node, version: Seq<char>) -> Node {
    match version_filetype {
        VersionFiletype::TOML => with_member(
            doc,
            "package"@,
            with_member(member(doc, "package"@)->Some_0, "version"@, Node::Text(version)),
        ),
        VersionFiletype::JSON => with_member(doc, "version"@, Node::Text(version)),
    }
}

/// The text of a tree in the given format. A JSON document is written
/// in its indented form with a line feed behind it, a TOML document as
/// its writer leaves it.
pub open spec fn document_written(version_filetype: VersionFiletype, doc: Node) -> Option<Seq<char>> {
    match version_filetype {
        VersionFiletype::TOML => toml_written(doc),
        VersionFiletype::JSON => match json_written(doc) {
            Some(text) => Some(text + seq!['\n']),
            None => None,
        },
    }
}

/// What reading the version of a descriptor comes to.
pub open spec fn loaded(version_filetype: VersionFiletype, contents: Seq<char>) -> Result<
    crate::version::VersionModel,
    ReleaseError,
> {
    match document_read(version_filetype, contents) {
        None => Err(ReleaseError::Io),
        Some(doc) => match version_field(version_filetype, doc) {
            None => Err(ReleaseError::MissingVersionField),
            Some(text) => match semver_read(text) {
                Some(v) => Ok(v),
                None => Err(ReleaseError::InvalidVersion),
            },
        },
    }
}

/// What writing a version into a descriptor comes to: the new text of
/// the descriptor.
pub open spec fn saved(
    version_filetype: VersionFiletype,
    contents: Seq<char>,
    version: Seq<char>,
) -> Result<Seq<char>, ReleaseError> {
    match document_read(version_filetype, contents) {
        None => Err(ReleaseError::Io),
        Some(doc) => if version_node(version_filetype, doc) is None {
            Err(ReleaseError::MissingVersionField)
        } else {
            match document_written(version_filetype, with_version(version_filetype, doc, version)) {
                Some(text) => Ok(text),
                None => Err(ReleaseError::Io),
            }
        },
    }
}

/// The version that a string field holds, or the failure that stands for
/// a field that is absent or holds no string.
pub fn version_from_field(field: Option<&str>) -> (out: Result<SemanticVersion, ReleaseError>)
    ensures
        match field {
            None => out == Err::<SemanticVersion, ReleaseError>(ReleaseError::MissingVersionField),
            Some(text) => match semver_read(text@) {
                Some(v) => out is Ok && out->Ok_0@ == v,
                None => out == Err::<SemanticVersion, ReleaseError>(ReleaseError::InvalidVersion),
            },
        },
{
    match field {
        None => Err(ReleaseError::MissingVersionField),
        Some(text) => SemanticVersion::parse(text),
    }
}

/// Reads the version from the text of a descriptor.
///
/// Fails with `Io` where the text is no document of the format, with
/// `MissingVersionField` where the document has no version field or the
/// field holds no string, and with `InvalidVersion` where the string is
/// no semantic version.
pub fn read_version_file(version_filetype: &VersionFiletype, contents: &str) -> (out: Result<
    SemanticVersion,
    ReleaseError,
>)
    ensures
        match loaded(*version_filetype, contents@) {
            Ok(v) => out is Ok && out->Ok_0@ == v,
            Err(e) => out == Err::<SemanticVersion, ReleaseError>(e),
        },
{
    match version_filetype {
        VersionFiletype::TOML => {
            let doc = match toml_parse(contents) {
                Ok(doc) => doc,
                Err(_) => {
                    return Err(ReleaseError::Io);
                },
            };
            let package = match toml_get(&doc, "package") {
                Some(package) => package,
                None => {
                    return Err(ReleaseError::MissingVersionField);
                },
            };
            match toml_get(package, "version") {
                Some(field) => version_from_field(toml_as_str(field)),
                None => Err(ReleaseError::MissingVersionField),
            }
        },
        VersionFiletype::JSON => {
            let doc = match json_parse(contents) {
                Ok(doc) => doc,
                Err(_) => {
                    return Err(ReleaseError::Io);
                },
            };
            match json_get(&doc, "version") {
                Some(field) => version_from_field(json_as_str(field)),
                None => Err(ReleaseError::MissingVersionField),
            }
        },
    }
}

/// The text of a descriptor after `new_ver` has taken the place of the
/// version in `contents`. All else in the document stays as it was read.
///
/// Fails with `Io` where the text is no document of the format or the
/// format's writer refuses the changed document, and with
/// `MissingVersionField` where the document has no version field.
pub fn write_version_file(
    version_filetype: &VersionFiletype,
    contents: &str,
    new_ver: &SemanticVersion,
) -> (out: Result<String, ReleaseError>)
    ensures
        match saved(*version_filetype, contents@, new_ver@.text()) {
            Ok(text) => out is Ok && out->Ok_0@ == text,
            Err(e) => out == Err::<String, ReleaseError>(e),
        },
{
    let version = new_ver.to_string();
    match version_filetype {
        VersionFiletype::TOML => {
            let mut doc = match toml_parse(contents) {
                Ok(doc) => doc,
                Err(_) => {
                    return Err(ReleaseError::Io);
                },
            };
            let present = match toml_get(&doc, "package") {
                Some(package) => toml_get(package, "version").is_some(),
                None => false,
            };
            if !present {
                return Err(ReleaseError::MissingVersionField);
            }
            toml_set(&mut doc, "package", "version", version.as_str());
            match toml_render(&doc) {
                Ok(text) => Ok(text),
                Err(_) => Err(ReleaseError::Io),
            }
        },
        VersionFiletype::JSON => {
            let mut doc = match json_parse(contents) {
                Ok(doc) => doc,
                Err(_) => {
                    return Err(ReleaseError::Io);
                },
            };
            if json_get(&doc, "version").is_none() {
                return Err(ReleaseError::MissingVersionField);
            }
            json_set(&mut doc, "version", version.as_str());
            match json_pretty(&doc) {
                Ok(text) => {
                    proof {
                        reveal_strlit("\n");
                        assert("\n"@ =~= seq!['\n']);
                    }
                    Ok(text.concat("\n"))
                },
                Err(_) => Err(ReleaseError::Io),
            }
        },
    }
}

/// What the attempt to bring the lock file in line comes to. A failure
/// is reported as `LockSyncFailed`; the descriptor that was written
/// before stays written.
pub fn lock_sync_result(synced: bool) -> (out: Result<(), ReleaseError>)
    ensures
        out == (if synced {
            Ok::<(), ReleaseError>(())
        } else {
            Err::<(), ReleaseError>(ReleaseError::LockSyncFailed)
        }),
{
    if synced {
        Ok(())
    } else {
        Err(ReleaseError::LockSyncFailed)
    }
}

/// A descriptor file: its name, the version it was last seen to carry,
/// its format, and the lock file that goes with it.
#[derive(Debug, PartialEq, Eq)]
pub struct VersionFile {
    pub filename: String,
    pub version_value: SemanticVersion,
    pub version_filetype: VersionFiletype,
    pub lockfile: Option<String>,
}

impl VersionFile {
    /// The descriptor of the given name, with the version that its text
    /// `contents` carries.
    ///
    /// Fails with `UnsupportedFileType` where the name does not end in
    /// `.toml` or `.json`, and as `read_version_file` does where the
    /// version cannot be read.
    pub fn new(filename: &str, contents: &str) -> (out: Result<VersionFile, ReleaseError>)
        ensures
            !supported(filename@) ==> out == Err::<VersionFile, ReleaseError>(
                ReleaseError::UnsupportedFileType,
            ),
            supported(filename@) ==> match loaded(
                filetype_of(filename@)->Some_0,
                contents@,
            ) {
                Ok(v) => {
                    &&& out is Ok
                    &&& out->Ok_0.filename@ == filename@
                    &&& out->Ok_0.version_value@ == v
                    &&& out->Ok_0.version_filetype == filetype_of(filename@)->Some_0
                    &&& out->Ok_0.lockfile_name() == lockfile_of(filetype_of(filename@)->Some_0)
                },
                Err(e) => out == Err::<VersionFile, ReleaseError>(e),
            },
    {
        if !is_version_file_supported(filename) {
            return Err(ReleaseError::UnsupportedFileType);
        }
        proof {
            lemma_supported_has_filetype(filename@);
        }
        let version_filetype = match VersionFiletype::from_str(filename) {
            Ok(t) => t,
            Err(e) => {
                return Err(e);
            },
        };
        let version_value = match read_version_file(&version_filetype, contents) {
            Ok(v) => v,
            Err(e) => {
                return Err(e);
            },
        };
        let lockfile = get_lockfile(&version_filetype);
        Ok(VersionFile { filename: filename.to_owned(), version_value, version_filetype, lockfile })
    }

    /// The name of the lock file, where the descriptor has one.
    pub open spec fn lockfile_name(&self) -> Option<Seq<char>> {
        match self.lockfile {
            Some(name) => Some(name@),
            None => None,
        }
    }

    /// The text of the descriptor after `new_ver` has taken the place of
    /// the version in `contents`; the descriptor then carries `new_ver`.
    /// Where this fails, as `write_version_file` does, the descriptor
    /// stays as it was.
    pub fn update_version_file(&mut self, contents: &str, new_ver: &SemanticVersion) -> (out:
        Result<String, ReleaseError>)
        ensures
            final(self).filename == old(self).filename,
            final(self).version_filetype == old(self).version_filetype,
            final(self).lockfile == old(self).lockfile,
            match saved(old(self).version_filetype, contents@, new_ver@.text()) {
                Ok(text) => out is Ok && out->Ok_0@ == text && final(self).version_value@
                    == new_ver@,
                Err(e) => out == Err::<String, ReleaseError>(e) && final(self).version_value
                    == old(self).version_value,
            },
    {
        let written = write_version_file(&self.version_filetype, contents, new_ver);
        if written.is_ok() {
            self.version_value = new_ver.clone();
        }
        written
    }

    /// Whether the lock file has to be brought in line after the
    /// descriptor was written: it has where the format of the descriptor
    /// goes with a lock file.
    pub fn needs_lock_sync(&self) -> (out: bool)
        ensures
            out == (lockfile_of(self.version_filetype) is Some),
    {
        match self.version_filetype {
            VersionFiletype::TOML => true,
            VersionFiletype::JSON => false,
        }
    }

    /// The version that the descriptor carries.
    pub fn get_version_value(&self) -> (out: &SemanticVersion)
        ensures
            out == &self.version_value,
    {
        &self.version_value
    }

    /// The files that have to be staged together: the descriptor, and
    /// behind it the lock file where there is one.
    pub fn get_tracked_files(&self) -> (out: Vec<String>)
        ensures
            out@.len() == (if self.lockfile is Some {
                2int
            } else {
                1int
            }),
            out@[0]@ == self.filename@,
            self.lockfile is Some ==> out@[1]@ == self.lockfile->Some_0@,
    {
        let mut out: Vec<String> = Vec::new();
        out.push(self.filename.clone());
        match &self.lockfile {
            Some(lockfile) => {
                out.push(lockfile.clone());
            },
            None => {},
        }
        out
    }
}

/// Writing a version string into a document and reading the version
/// field of the result gives that string back, and the members of the
/// document under every other key are what they were: in a JSON document
/// the members beside `version`, in a TOML document the members beside
/// `package` and the members of `package` beside `version`. The keys
/// stay what and where they were: no member is added or removed.
pub proof fn lemma_version_round_trip(
    version_filetype: VersionFiletype,
    doc: Node,
    version: Seq<char>,
)
    requires
        version_node(version_filetype, doc) is Some,
    ensures
        version_field(version_filetype, with_version(version_filetype, doc, version)) == Some(
            version,
        ),
        version_filetype == VersionFiletype::JSON ==> forall|key: Seq<char>|
            key != "version"@ ==> member(with_version(version_filetype, doc, version), key)
                == member(doc, key),
        version_filetype == VersionFiletype::TOML ==> forall|key: Seq<char>|
            key != "package"@ ==> member(with_version(version_filetype, doc, version), key)
                == member(doc, key),
        version_filetype == VersionFiletype::TOML ==> forall|key: Seq<char>|
            key != "version"@ ==> member(
                member(with_version(version_filetype, doc, version), "package"@)->Some_0,
                key,
            ) == member(member(doc, "package"@)->Some_0, key),
        keys(with_version(version_filetype, doc, version)) == keys(doc),
        version_filetype == VersionFiletype::TOML ==> keys(
            member(with_version(version_filetype, doc, version), "package"@)->Some_0,
        ) == keys(member(doc, "package"@)->Some_0),
{
    match version_filetype {
        VersionFiletype::JSON => {
            lemma_with_member(doc, "version"@, Node::Text(version));
        },
        VersionFiletype::TOML => {
            let package = member(doc, "package"@)->Some_0;
            let changed = with_member(package, "version"@, Node::Text(version));
            lemma_with_member(package, "version"@, Node::Text(version));
            lemma_with_member(doc, "package"@, changed);
        },
    }
}


/// The reader of the format gives back `doc` from the text that the
/// writer of the format writes for it.
pub open spec fn reads_back(version_filetype: VersionFiletype, doc: Node) -> bool {
    match document_written(version_filetype, doc) {
        Some(text) => document_read(version_filetype, text) == Some(doc),
        None => true,
    }
}

/// Where the reader of the format gives back the document that was
/// written, the text that saving a version leaves reads as the document
/// that was there before with the version string in its version field:
/// by `lemma_version_round_trip`, all else in it is as it was.
pub proof fn lemma_saved_document(
    version_filetype: VersionFiletype,
    contents: Seq<char>,
    version: Seq<char>,
)
    requires
        saved(version_filetype, contents, version) is Ok,
        reads_back(
            version_filetype,
            with_version(
                version_filetype,
                document_read(version_filetype, contents)->Some_0,
                version,
            ),
        ),
    ensures
        document_read(version_filetype, saved(version_filetype, contents, version)->Ok_0) == Some(
            with_version(
                version_filetype,
                document_read(version_filetype, contents)->Some_0,
                version,
            ),
        ),
        version_field(
            version_filetype,
            document_read(
                version_filetype,
                saved(version_filetype, contents, version)->Ok_0,
            )->Some_0,
        ) == Some(version),
{
    let before = document_read(version_filetype, contents)->Some_0;
    lemma_version_round_trip(version_filetype, before, version);
}

/// Saving a version into a descriptor and loading the descriptor again
/// gives the same version, where the reader of the format gives back the
/// document that was written and the version parser reads the written
/// form of the version as that version.
pub proof fn lemma_saved_version_loads(
    version_filetype: VersionFiletype,
    contents: Seq<char>,
    version: crate::version::VersionModel,
)
    requires
        saved(version_filetype, contents, version.text()) is Ok,
        reads_back(
            version_filetype,
            with_version(
                version_filetype,
                document_read(version_filetype, contents)->Some_0,
                version.text(),
            ),
        ),
        semver_read(version.text()) == Some(version),
    ensures
        loaded(version_filetype, saved(version_filetype, contents, version.text())->Ok_0) == Ok::<
            crate::version::VersionModel,
            ReleaseError,
        >(version),
{
    lemma_saved_document(version_filetype, contents, version.text());
}

} // verus!
