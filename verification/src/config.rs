//! Two-scope configuration data: a global scope holding the issue-tracker
//! account, and a per-repository scope holding the chosen base branch.
//! Loading and persisting these values is the application shell's business;
//! here stand the values themselves and the `Set` / `Unset` distinction.

use vstd::prelude::*;

verus! {

/// Issue-tracker account data of the global configuration scope.
pub struct JiraConfig {
    pub host: String,
    pub user: String,
    pub token: String,
}

/// Global configuration scope: `Unset` while `jira` is `None`.
pub struct Config {
    pub jira: Option<JiraConfig>,
}

/// Branch names chosen for one repository.
pub struct BranchsName {
    pub dev: String,
}

/// Per-repository configuration scope: `Unset` while `branches` is `None`.
pub struct RepoConfig {
    pub branches: Option<BranchsName>,
}

impl Default for Config {
    fn default() -> (r: Self)
        ensures
            r.jira is None,
    {
        Config { jira: None }
    }
}

impl Config {
    pub fn is_set(&self) -> (r: bool)
        ensures
            r == (self.jira is Some),
    {
        self.jira.is_some()
    }

    pub fn is_not_set(&self) -> (r: bool)
        ensures
            r == (self.jira is None),
    {
        !self.is_set()
    }
}

impl Default for RepoConfig {
    fn default() -> (r: Self)
        ensures
            r.branches is None,
    {
        RepoConfig { branches: None }
    }
}

impl RepoConfig {
    pub fn is_set(&self) -> (r: bool)
        ensures
            r == (self.branches is Some),
    {
        self.branches.is_some()
    }

    pub fn is_not_set(&self) -> (r: bool)
        ensures
            r == (self.branches is None),
    {
        !self.is_set()
    }
}

} // verus!
