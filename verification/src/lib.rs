//! A self-hosted backend for git repositories: each owner's repositories
//! live in a directory of their own, and the service shows their history,
//! their files and their diffs, commits to them, pulls, renames and deletes
//! them, clones new ones in the background and tells the owner how a clone
//! ended.
//!
//! This crate is the engine of that service. It decides; it does not touch
//! the disk, the network or the object database. Whoever calls it reads what
//! there is to read, hands it over as plain values, and carries out what the
//! engine asks for. Every decision is stated as a contract and proved.
//!
//! - [`resolver`]: from an owner and a repository name to a directory.
//! - [`refs`]: what `HEAD` and the branches resolve to.
//! - [`history`] and [`order`]: the history of a repository, in order and in pages.
//! - [`tree`]: the files of a commit, listed and read.
//! - [`diff`]: the changes of a commit, file by file.
//! - [`mutation`] and [`maintenance`]: committing, pulling, renaming and
//!   deleting, step by step.
//! - [`locks`]: one mutation at a time in each repository.
//! - [`cloning`]: the jobs that clone repositories.
//! - [`hub`]: the notification channels of each owner.
//! - [`error`]: the failures that all of them report.
//!
//! The other modules hold what the service around the engine needs: requests
//! and their rules, users and messages, tokens and settings.

pub mod auth;
pub mod clock;
pub mod cloning;
pub mod content;
pub mod diff;
pub mod dtos;
pub mod error;
pub mod git;
pub mod history;
pub mod hub;
pub mod jwt;
pub mod locks;
pub mod maintenance;
pub mod models;
pub mod mutation;
pub mod object_id;
pub mod order;
pub mod refs;
pub mod resolver;
pub mod response;
pub mod setting;
pub mod text;
pub mod tree;
pub mod validation;
pub mod vos;
