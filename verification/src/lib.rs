//! Automates a developer's "start a ticket" workflow: derive a branch name
//! from an issue title, create and check out the branch from a configured
//! base branch, and push the current branch to its remote.

pub mod adapt_err;
pub mod cli;
pub mod command;
pub mod config;
pub mod git;
pub mod init;
pub mod jira;
