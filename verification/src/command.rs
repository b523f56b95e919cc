//! The computational core of the "start" workflow: the branch name proposed
//! for an issue. The surrounding steps — prompting, fetching the issue,
//! persisting configuration — live in the application shell.

use vstd::prelude::*;
use crate::git::slug_of;
use crate::git::to_branch_name;

verus! {

/// The branch name proposed for an issue: the issue key, a hyphen, and the
/// slug of the issue's summary.
pub fn default_branch_name(key: &str, summary: &str) -> (r: String)
    ensures
        r@ == key@ + seq!['-'] + slug_of(summary@),
{
    let mut name = key.to_owned();
    name.append("-");
    let slug = to_branch_name(summary);
    name.append(slug.as_str());
    proof {
        assert(name@ == key@ + "-"@ + slug_of(summary@));
        reveal_strlit("-");
        assert("-"@ =~= seq!['-']);
    }
    name
}

} // verus!
