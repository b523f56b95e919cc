//! Branch operations on a local repository, and the slug transformation that
//! turns arbitrary issue titles into valid branch names.

use vstd::prelude::*;

verus! {

broadcast use vstd::string::group_string_axioms;

// ---------------------------------------------------------------------------
// Slug normalization
// ---------------------------------------------------------------------------

/// ASCII-lowercases a character: 'A'..'Z' map to 'a'..'z', all else unchanged.
pub open spec fn lower_char(c: char) -> char {
    if 65 <= c as u32 && c as u32 <= 90 {
        (c as u32 + 32) as char
    } else {
        c
    }
}

/// A character that a slug keeps as is: ASCII lowercase letter or ASCII digit.
pub open spec fn is_slug_keep(c: char) -> bool {
    (97 <= c as u32 && c as u32 <= 122) || (48 <= c as u32 && c as u32 <= 57)
}

/// What one input character contributes: itself lower-cased when that is a
/// letter or digit, a separator hyphen otherwise.
pub open spec fn slug_char(c: char) -> char {
    if is_slug_keep(lower_char(c)) {
        lower_char(c)
    } else {
        '-'
    }
}

/// The slug of a text: each character lower-cased or turned into a hyphen,
/// with runs of hyphens collapsed to one. Edge hyphens are kept.
pub open spec fn slug_of(s: Seq<char>) -> Seq<char>
    decreases s.len(),
{
    if s.len() == 0 {
        Seq::empty()
    } else {
        let prefix = slug_of(s.drop_last());
        let c = slug_char(s.last());
        if c == '-' && prefix.len() > 0 && prefix.last() == '-' {
            prefix
        } else {
            prefix.push(c)
        }
    }
}

/// A well-formed slug: only ASCII lowercase letters, ASCII digits and
/// hyphens, and never two hyphens in a row.
pub open spec fn is_slug_seq(s: Seq<char>) -> bool {
    &&& forall|i: int| 0 <= i < s.len() ==> is_slug_keep(#[trigger] s[i]) || s[i] == '-'
    &&& forall|i: int| 0 < i < s.len() ==> !(s[i - 1] == '-' && #[trigger] s[i] == '-')
}

/// Law: for every input, the slug holds only ASCII lowercase letters, ASCII
/// digits and hyphens, and never two consecutive hyphens.
pub proof fn lemma_slug_of_well_formed(s: Seq<char>)
    ensures
        is_slug_seq(slug_of(s)),
    decreases s.len(),
{
    if s.len() > 0 {
        lemma_slug_of_well_formed(s.drop_last());
    }
}

/// Law: the slug is a function of the input text alone — equal inputs give
/// equal slugs.
pub proof fn lemma_slug_of_deterministic(a: Seq<char>, b: Seq<char>)
    requires
        a == b,
    ensures
        slug_of(a) == slug_of(b),
{
}

/// Relies on String::push: appends the one character to the end of the string.
#[verifier::external_body]
fn push_char(s: &mut String, c: char)
    ensures
        final(s)@ == old(s)@ + seq![c],
{
    s.push(c);
}

fn slug_char_exec(c: char) -> (r: char)
    ensures
        r == slug_char(c),
{
    let u = c as u32;
    let m: u32 = if 65 <= u && u <= 90 {
        u + 32
    } else {
        u
    };
    assert(m == lower_char(c) as u32);
    if (97 <= m && m <= 122) || (48 <= m && m <= 57) {
        (m as u8) as char
    } else {
        '-'
    }
}

/// Turns arbitrary text into a branch-name slug: lower-cases each character,
/// keeps ASCII letters and digits, and collapses everything else into single
/// hyphens.
pub fn to_branch_name(text: &str) -> (r: String)
    ensures
        r@ == slug_of(text@),
        is_slug_seq(r@),
{
    proof {
        lemma_slug_of_well_formed(text@);
    }
    let mut out = String::new();
    let mut dash = false;
    for c in it: text.chars()
        invariant
            it.seq() == text@,
            out@ == slug_of(text@.take(it.index() as int)),
            dash == (out@.len() > 0 && out@.last() == '-'),
    {
        let ghost prefix = text@.take(it.index() as int);
        proof {
            assert(text@.take(it.index() + 1).drop_last() =~= prefix);
            assert(text@.take(it.index() + 1).last() == c);
        }
        let k = slug_char_exec(c);
        if k == '-' {
            if !dash {
                push_char(&mut out, '-');
                dash = true;
            }
        } else {
            push_char(&mut out, k);
            dash = false;
        }
    }
    proof {
        assert(text@.take(text@.len() as int) =~= text@);
    }
    out
}

// ---------------------------------------------------------------------------
// Repository handle and branch operations
// ---------------------------------------------------------------------------

#[verifier::external_type_specification]
#[verifier::external_body]
pub struct ExGit2Repository(git2::Repository);

#[verifier::external_type_specification]
#[verifier::external_body]
pub struct ExGit2Error(git2::Error);

#[verifier::external_type_specification]
#[verifier::external_body]
pub struct ExGit2Branch<'repo>(git2::Branch<'repo>);

#[verifier::external_type_specification]
#[verifier::external_body]
pub struct ExGit2Commit<'repo>(git2::Commit<'repo>);

#[verifier::external_type_specification]
#[verifier::external_body]
pub struct ExGit2Object<'repo>(git2::Object<'repo>);

#[verifier::external_type_specification]
#[verifier::external_body]
pub struct ExGit2Reference<'repo>(git2::Reference<'repo>);

#[verifier::external_type_specification]
#[verifier::external_body]
pub struct ExGit2Remote<'repo>(git2::Remote<'repo>);

/// An open local repository.
pub struct GitRepository {
    inner: git2::Repository,
}

/// Everything that can go wrong around branches, each failure carrying the
/// name it concerns and, where one exists, the underlying cause.
#[derive(Debug)]
pub enum GitError {
    CannotOpenRepository,
    BranchNotFound(String),
    CommitNotFound(String),
    CannotCreateBranch(String),
    CannotCheckoutBranch(String, git2::Error),
    CannotGetHead,
    NotInABranch,
    OriginNotFound,
    CannotPushToOrigin(git2::Error),
}

/// Relies on git2::Repository::discover: searches the given directory and
/// its ancestors for a repository.
#[verifier::external_body]
fn discover_repository() -> Result<git2::Repository, git2::Error> {
    git2::Repository::discover(".")
}

/// Relies on git2::Repository::find_branch: looks the named local branch up.
#[verifier::external_body]
fn find_local_branch<'r>(
    repo: &'r git2::Repository,
    name: &str,
) -> Result<git2::Branch<'r>, git2::Error> {
    repo.find_branch(name, git2::BranchType::Local)
}

/// Relies on git2::Branch::get: hands out the reference the branch stands on.
#[verifier::external_body]
fn branch_reference<'a, 'r>(branch: &'a git2::Branch<'r>) -> &'a git2::Reference<'r> {
    branch.get()
}

/// Relies on git2::Reference::peel_to_commit: resolves the reference to the
/// commit it points at, failing when it points at no commit.
#[verifier::external_body]
fn peel_to_commit<'r>(
    reference: &git2::Reference<'r>,
) -> Result<git2::Commit<'r>, git2::Error> {
    reference.peel_to_commit()
}

/// Relies on git2::Repository::branch: creates a new branch pointing at the
/// given commit, failing when a branch of that name already exists.
#[verifier::external_body]
fn create_branch<'r>(
    repo: &'r git2::Repository,
    name: &str,
    target: &git2::Commit<'r>,
) -> Result<git2::Branch<'r>, git2::Error> {
    repo.branch(name, target, false)
}

/// Relies on git2::Branch::set_upstream: sets the branch's upstream tracking
/// to the named branch.
#[verifier::external_body]
fn set_branch_upstream(
    branch: &mut git2::Branch<'_>,
    upstream_name: &str,
) -> Result<(), git2::Error> {
    branch.set_upstream(Some(upstream_name))
}

/// Relies on git2::Reference::peel: resolves the reference to its tree
/// object.
#[verifier::external_body]
fn peel_to_tree<'r>(
    reference: &git2::Reference<'r>,
) -> Result<git2::Object<'r>, git2::Error> {
    reference.peel(git2::ObjectType::Tree)
}

/// Relies on git2::Repository::checkout_tree: makes the working tree and the
/// index match the given tree.
#[verifier::external_body]
fn checkout_tree(repo: &git2::Repository, tree: &git2::Object<'_>) -> Result<(), git2::Error> {
    repo.checkout_tree(tree, None)
}

/// Relies on git2::Reference::name: the full name of the reference, failing
/// when the name is not valid UTF-8.
#[verifier::external_body]
fn reference_name<'a>(reference: &'a git2::Reference<'_>) -> Result<&'a str, git2::Error> {
    reference.name()
}

/// Relies on git2::Repository::set_head: points HEAD at the named reference.
#[verifier::external_body]
fn set_head(repo: &git2::Repository, ref_name: &str) -> Result<(), git2::Error> {
    repo.set_head(ref_name)
}

/// Relies on git2::Repository::head: the reference HEAD points at.
#[verifier::external_body]
fn repo_head<'r>(repo: &'r git2::Repository) -> Result<git2::Reference<'r>, git2::Error> {
    repo.head()
}

/// Relies on git2::Reference::is_branch: whether the reference is a local
/// branch.
#[verifier::external_body]
fn reference_is_branch(reference: &git2::Reference<'_>) -> bool {
    reference.is_branch()
}

/// Relies on git2::Repository::find_remote: looks the named remote up.
#[verifier::external_body]
fn find_remote<'r>(
    repo: &'r git2::Repository,
    name: &str,
) -> Result<git2::Remote<'r>, git2::Error> {
    repo.find_remote(name)
}

/// Relies on git2::Remote::push: pushes the given refspec, authenticating
/// with whatever key material the running SSH agent holds. A remote URL
/// that names no user cannot be authenticated this way, and that failure
/// comes back as the push's error, never as a panic.
#[verifier::external_body]
fn push_refspec(remote: &mut git2::Remote<'_>, refspec: &str) -> Result<(), git2::Error> {
    let mut callbacks = git2::RemoteCallbacks::new();
    callbacks.credentials(|_url, username_from_url, _allowed_types| match username_from_url {
        Some(username) => git2::Cred::ssh_key_from_agent(username),
        None => Err(git2::Error::from_str("remote URL carries no user name")),
    });
    let mut push_options = git2::PushOptions::new();
    push_options.remote_callbacks(callbacks);
    remote.push(&[refspec], Some(&mut push_options))
}

/// Relies on git2::Repository::workdir: the path of the working directory,
/// `None` for a bare repository or a path that is not valid UTF-8.
#[verifier::external_body]
fn repo_workdir(repo: &git2::Repository) -> Option<String> {
    repo.workdir().and_then(|p| p.to_str()).map(|s| s.to_owned())
}

/// Relies on git2::Repository::branches and git2::Branch::name: the names of
/// the local branches, leaving out any name that is not valid UTF-8.
#[verifier::external_body]
fn local_branch_names(repo: &git2::Repository) -> Result<Vec<String>, git2::Error> {
    let mut names = Vec::new();
    for entry in repo.branches(Some(git2::BranchType::Local))? {
        let (branch, _) = entry?;
        if let Some(name) = branch.name()? {
            names.push(name.to_owned());
        }
    }
    Ok(names)
}

impl GitRepository {
    /// Locates a repository from the current directory upward. Absent and
    /// unreadable repositories are not told apart.
    pub fn discover() -> (r: Result<GitRepository, GitError>)
        ensures
            r matches Err(e) ==> e is CannotOpenRepository,
    {
        match discover_repository() {
            Ok(inner) => Ok(GitRepository { inner }),
            Err(_) => Err(GitError::CannotOpenRepository),
        }
    }

    /// Creates `new_branch` at the tip commit of the local branch
    /// `from_branch`, sets its upstream tracking to its own name, makes the
    /// working tree match it and moves HEAD to it. The steps are distinct
    /// failure domains and nothing is rolled back: a failure after the first
    /// step leaves the new ref in place and is only reported.
    pub fn create_and_checkout_branch(&self, new_branch: &str, from_branch: &str) -> (r: Result<
        (),
        GitError,
    >)
        ensures
            r matches Err(e) ==> match e {
                GitError::BranchNotFound(n) => n@ == from_branch@ || n@ == new_branch@,
                GitError::CommitNotFound(n) => n@ == from_branch@,
                GitError::CannotCreateBranch(n) => n@ == new_branch@,
                GitError::CannotCheckoutBranch(n, _) => n@ == new_branch@,
                _ => false,
            },
    {
        let target_branch = match find_local_branch(&self.inner, from_branch) {
            Ok(b) => b,
            Err(_) => {
                return Err(GitError::BranchNotFound(from_branch.to_owned()));
            },
        };

        let commit = match peel_to_commit(branch_reference(&target_branch)) {
            Ok(c) => c,
            Err(_) => {
                return Err(GitError::CommitNotFound(from_branch.to_owned()));
            },
        };

        let mut branch = match create_branch(&self.inner, new_branch, &commit) {
            Ok(b) => b,
            Err(_) => {
                return Err(GitError::CannotCreateBranch(new_branch.to_owned()));
            },
        };

        if let Err(_) = set_branch_upstream(&mut branch, new_branch) {
            return Err(GitError::CannotCreateBranch(new_branch.to_owned()));
        }

        let tree = match peel_to_tree(branch_reference(&branch)) {
            Ok(t) => t,
            Err(e) => {
                return Err(GitError::CannotCheckoutBranch(new_branch.to_owned(), e));
            },
        };

        if let Err(e) = checkout_tree(&self.inner, &tree) {
            return Err(GitError::CannotCheckoutBranch(new_branch.to_owned(), e));
        }

        let ref_name = match reference_name(branch_reference(&branch)) {
            Ok(n) => n,
            Err(_) => {
                return Err(GitError::BranchNotFound(new_branch.to_owned()));
            },
        };

        if let Err(e) = set_head(&self.inner, ref_name) {
            return Err(GitError::CannotCheckoutBranch(new_branch.to_owned(), e));
        }

        Ok(())
    }

    /// Pushes the branch HEAD points at to the identically named ref on the
    /// remote "origin", authenticating through the running SSH agent. Fails
    /// before any transport work when HEAD is detached or "origin" is
    /// missing; a transport failure is wrapped and never retried.
    pub fn push(&self) -> (r: Result<(), GitError>)
        ensures
            r matches Err(e) ==> (e is CannotGetHead || e is NotInABranch || e is OriginNotFound
                || e is CannotPushToOrigin),
    {
        let reference = match repo_head(&self.inner) {
            Ok(h) => h,
            Err(_) => {
                return Err(GitError::CannotGetHead);
            },
        };

        if !reference_is_branch(&reference) {
            return Err(GitError::NotInABranch);
        }

        let mut remote = match find_remote(&self.inner, "origin") {
            Ok(r) => r,
            Err(_) => {
                return Err(GitError::OriginNotFound);
            },
        };

        let ref_name = match reference_name(&reference) {
            Ok(n) => n,
            Err(_) => {
                return Err(GitError::OriginNotFound);
            },
        };

        let mut refspec = ref_name.to_owned();
        refspec.append(":");
        refspec.append(ref_name);

        match push_refspec(&mut remote, refspec.as_str()) {
            Ok(()) => Ok(()),
            Err(e) => Err(GitError::CannotPushToOrigin(e)),
        }
    }

    /// The path of the repository's working directory, `None` for a bare
    /// repository.
    pub fn workdir(&self) -> Option<String> {
        repo_workdir(&self.inner)
    }

    /// The names of the repository's local branches.
    pub fn branches(&self) -> (r: Result<Vec<String>, GitError>)
        ensures
            r matches Err(e) ==> e is CannotOpenRepository,
    {
        match local_branch_names(&self.inner) {
            Ok(names) => Ok(names),
            Err(_) => Err(GitError::CannotOpenRepository),
        }
    }
}

} // verus!
