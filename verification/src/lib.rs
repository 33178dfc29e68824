//! Contribution statistics and changelogs from the history of a Git
//! repository: per-author commit and line counts with their shares, and a
//! Markdown changelog of the commits between two tags, sorted into
//! features, fixes and other changes.

use vstd::prelude::*;

pub mod analyzer;
pub mod changelog;
pub mod classify;
pub mod diffstat;
pub mod ledger;
pub mod models;
pub mod ranking;
pub mod repo;
pub mod report;
pub mod share;
pub mod text;
pub mod utils;
pub mod walker;
