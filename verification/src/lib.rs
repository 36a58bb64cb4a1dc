//! Chord: a workspace of git repos, declared in a manifest and pinned by a lockfile.
pub mod cli;
pub mod commands;
pub mod git;
pub mod manifest;
pub mod repo;
pub mod workspace;
