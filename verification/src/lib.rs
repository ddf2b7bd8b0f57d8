//! Release automation: semantic version transitions, version descriptor
//! documents, commit log filtering and changelog assembly.

pub mod changelog_gen;
pub mod cli;
pub mod commit;
pub mod document;
pub mod error;
pub mod git;
pub mod github;
pub mod text;
pub mod version;
pub mod version_file;
