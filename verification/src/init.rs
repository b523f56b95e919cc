//! Interactive-initialization support logic: the preference order in which
//! local branches are offered when choosing a base branch.

use vstd::prelude::*;

verus! {

broadcast use
    vstd::seq::group_seq_axioms,
    vstd::seq_lib::group_seq_lib_default,
    vstd::utf8::char_u32_cast,
    vstd::utf8::char_is_scalar;

// ---------------------------------------------------------------------------
// Branch preference order
// ---------------------------------------------------------------------------

/// Strict lexicographic order on character sequences, by Unicode scalar
/// value.
pub open spec fn lex_lt(a: Seq<char>, b: Seq<char>) -> bool
    decreases a.len(),
{
    if b.len() == 0 {
        false
    } else if a.len() == 0 {
        true
    } else if (a[0] as u32) < (b[0] as u32) {
        true
    } else if a[0] == b[0] {
        lex_lt(a.drop_first(), b.drop_first())
    } else {
        false
    }
}

/// The preference rank of a branch name: the usual development branch names
/// come first, "develop" before "main" and "master", everything else after.
pub open spec fn branch_rank(s: Seq<char>) -> int {
    if s == "develop"@ {
        0
    } else if s == "main"@ || s == "master"@ {
        1
    } else {
        2
    }
}

/// The order in which branches are offered: by preference rank, and within
/// one rank lexicographically.
pub open spec fn branch_le(a: Seq<char>, b: Seq<char>) -> bool {
    ||| branch_rank(a) < branch_rank(b)
    ||| (branch_rank(a) == branch_rank(b) && (a == b || lex_lt(a, b)))
}

/// Sorted according to the branch preference order.
pub open spec fn sorted_branches(s: Seq<Seq<char>>) -> bool {
    forall|i: int, j: int| 0 <= i < j < s.len() ==> branch_le(#[trigger] s[i], #[trigger] s[j])
}

proof fn lemma_lex_lt_connected(a: Seq<char>, b: Seq<char>)
    ensures
        lex_lt(a, b) || lex_lt(b, a) || a == b,
    decreases a.len(),
{
    if b.len() == 0 {
        if a.len() == 0 {
            assert(a =~= b);
        } else {
            assert(lex_lt(b, a));
        }
    } else if a.len() == 0 {
        assert(lex_lt(a, b));
    } else if a[0] != b[0] {
        vstd::utf8::char_u32_cast(a[0], a[0] as u32);
        vstd::utf8::char_u32_cast(b[0], b[0] as u32);
        assert((a[0] as u32) != (b[0] as u32));
        assert(lex_lt(a, b) || lex_lt(b, a));
    } else {
        lemma_lex_lt_connected(a.drop_first(), b.drop_first());
        if a.drop_first() == b.drop_first() {
            assert(a.drop_first().len() == a.len() - 1);
            assert(b.drop_first().len() == b.len() - 1);
            assert forall|i: int| 0 <= i < a.len() implies a[i] == b[i] by {
                if i > 0 {
                    assert(a[i] == a.drop_first()[i - 1]);
                    assert(b[i] == b.drop_first()[i - 1]);
                }
            }
            assert(a =~= b);
        }
    }
}

proof fn lemma_lex_lt_trans(a: Seq<char>, b: Seq<char>, c: Seq<char>)
    requires
        lex_lt(a, b),
        lex_lt(b, c),
    ensures
        lex_lt(a, c),
    decreases a.len(),
{
    if a.len() > 0 && b.len() > 0 && c.len() > 0 && a[0] == b[0] && b[0] == c[0] {
        lemma_lex_lt_trans(a.drop_first(), b.drop_first(), c.drop_first());
    }
}

/// Law: the branch preference order is total — of any two names, one is
/// offered no later than the other.
pub proof fn lemma_branch_le_connected(a: Seq<char>, b: Seq<char>)
    ensures
        branch_le(a, b) || branch_le(b, a),
{
    lemma_lex_lt_connected(a, b);
}

/// Law: the branch preference order is transitive.
pub proof fn lemma_branch_le_trans(a: Seq<char>, b: Seq<char>, c: Seq<char>)
    requires
        branch_le(a, b),
        branch_le(b, c),
    ensures
        branch_le(a, c),
{
    if branch_rank(a) == branch_rank(b) && branch_rank(b) == branch_rank(c) && a != b && b != c {
        lemma_lex_lt_trans(a, b, c);
    }
}

// ---------------------------------------------------------------------------
// Executable comparisons
// ---------------------------------------------------------------------------

/// Character-wise string equality.
fn str_eq(a: &str, b: &str) -> (r: bool)
    ensures
        r == (a@ == b@),
{
    let n = a.unicode_len();
    if n != b.unicode_len() {
        return false;
    }
    let mut i: usize = 0;
    while i < n
        invariant
            n == a@.len(),
            n == b@.len(),
            i <= n,
            forall|j: int| 0 <= j < i ==> a@[j] == b@[j],
        decreases n - i,
    {
        if a.get_char(i) != b.get_char(i) {
            return false;
        }
        i += 1;
    }
    proof {
        assert(a@ =~= b@);
    }
    true
}

/// Character-wise lexicographic comparison.
fn str_lt(a: &str, b: &str) -> (r: bool)
    ensures
        r == lex_lt(a@, b@),
{
    let la = a.unicode_len();
    let lb = b.unicode_len();
    let mut i: usize = 0;
    proof {
        assert(a@.skip(0) =~= a@);
        assert(b@.skip(0) =~= b@);
    }
    while i < la && i < lb
        invariant
            la == a@.len(),
            lb == b@.len(),
            i <= la,
            i <= lb,
            lex_lt(a@, b@) == lex_lt(a@.skip(i as int), b@.skip(i as int)),
        decreases la - i,
    {
        let ca = a.get_char(i);
        let cb = b.get_char(i);
        proof {
            assert(a@.skip(i as int)[0] == a@[i as int]);
            assert(b@.skip(i as int)[0] == b@[i as int]);
            assert(a@.skip(i as int).drop_first() =~= a@.skip(i + 1));
            assert(b@.skip(i as int).drop_first() =~= b@.skip(i + 1));
        }
        if ca != cb {
            return (ca as u32) < (cb as u32);
        }
        i += 1;
    }
    proof {
        if i >= lb {
            assert(b@.skip(i as int).len() == 0);
        } else {
            assert(a@.skip(i as int).len() == 0);
            assert(b@.skip(i as int).len() > 0);
        }
    }
    i < lb
}

fn branch_rank_exec(s: &str) -> (r: u8)
    ensures
        r as int == branch_rank(s@),
{
    if str_eq(s, "develop") {
        0
    } else if str_eq(s, "main") {
        1
    } else if str_eq(s, "master") {
        1
    } else {
        2
    }
}

fn branch_le_exec(a: &str, b: &str) -> (r: bool)
    ensures
        r == branch_le(a@, b@),
{
    let ra = branch_rank_exec(a);
    let rb = branch_rank_exec(b);
    if ra < rb {
        true
    } else if rb < ra {
        false
    } else if str_eq(a, b) {
        true
    } else {
        str_lt(a, b)
    }
}

// ---------------------------------------------------------------------------
// Sorting
// ---------------------------------------------------------------------------

proof fn lemma_to_multiset_insert(s: Seq<Seq<char>>, j: int, x: Seq<char>)
    requires
        0 <= j <= s.len(),
    ensures
        s.insert(j, x).to_multiset() =~= s.to_multiset().insert(x),
{
    broadcast use vstd::seq_lib::group_to_multiset_ensures;
    broadcast use vstd::multiset::group_multiset_axioms;

    assert(s.insert(j, x) =~= s.take(j).push(x) + s.skip(j));
    assert(s =~= s.take(j) + s.skip(j));
    vstd::seq_lib::lemma_multiset_commutative(s.take(j).push(x), s.skip(j));
    vstd::seq_lib::lemma_multiset_commutative(s.take(j), s.skip(j));
}

fn find_insert_pos(out: &Vec<String>, x: &String) -> (j: usize)
    ensures
        j <= out@.len(),
        forall|k: int| 0 <= k < j ==> branch_le(#[trigger] out.deep_view()[k], x@),
        j < out@.len() ==> !branch_le(out.deep_view()[j as int], x@),
{
    let mut j: usize = 0;
    while j < out.len()
        invariant
            j <= out@.len(),
            forall|k: int| 0 <= k < j ==> branch_le(#[trigger] out.deep_view()[k], x@),
        decreases out@.len() - j,
    {
        proof {
            assert(out.deep_view()[j as int] == out@[j as int]@);
        }
        let keep_going = branch_le_exec(out[j].as_str(), x.as_str());
        if !keep_going {
            return j;
        }
        j += 1;
    }
    j
}

/// Sorts branch names for the base-branch prompt: the usual development
/// branches first ("develop" before "main" and "master"), the rest in
/// lexicographic order. The result holds exactly the given names.
pub fn sort_branches(branches: &Vec<String>) -> (r: Vec<String>)
    ensures
        sorted_branches(r.deep_view()),
        r.deep_view().to_multiset() == branches.deep_view().to_multiset(),
        r.deep_view().len() == branches.deep_view().len(),
{
    let ghost dv = branches.deep_view();
    let mut out: Vec<String> = Vec::new();
    let mut idx: usize = 0;
    proof {
        assert(dv.take(0) =~= Seq::<Seq<char>>::empty());
        assert(out.deep_view() =~= Seq::<Seq<char>>::empty());
    }
    while idx < branches.len()
        invariant
            dv == branches.deep_view(),
            idx <= branches.len(),
            sorted_branches(out.deep_view()),
            out.deep_view().to_multiset() == dv.take(idx as int).to_multiset(),
        decreases branches.len() - idx,
    {
        let x = branches[idx].clone();
        let ghost xv = x@;
        proof {
            assert(xv == dv[idx as int]);
        }
        let j = find_insert_pos(&out, &x);
        let ghost pre = out.deep_view();
        proof {
            if j < pre.len() {
                lemma_branch_le_connected(pre[j as int], xv);
                assert forall|k: int| j <= k < pre.len() implies branch_le(
                    xv,
                    #[trigger] pre[k],
                ) by {
                    lemma_branch_le_trans(xv, pre[j as int], pre[k]);
                }
            }
            lemma_to_multiset_insert(pre, j as int, xv);
        }
        out.insert(j, x);
        proof {
            let nv = out.deep_view();
            assert(nv =~= pre.insert(j as int, xv));
            assert forall|p: int, q: int| 0 <= p < q < nv.len() implies branch_le(
                nv[p],
                nv[q],
            ) by {
                if p < j {
                    assert(nv[p] == pre[p]);
                } else if p == j {
                    assert(nv[p] == xv);
                } else {
                    assert(nv[p] == pre[p - 1]);
                }
                if q < j {
                    assert(nv[q] == pre[q]);
                } else if q == j {
                    assert(nv[q] == xv);
                } else {
                    assert(nv[q] == pre[q - 1]);
                }
            }
            broadcast use vstd::seq_lib::group_to_multiset_ensures;

            assert(dv.take(idx + 1) =~= dv.take(idx as int).push(dv[idx as int]));
            assert(nv.to_multiset() =~= dv.take(idx + 1).to_multiset());
        }
        idx += 1;
    }
    proof {
        assert(dv.take(dv.len() as int) =~= dv);
        broadcast use vstd::seq_lib::group_to_multiset_ensures;

        assert(out.deep_view().len() == out.deep_view().to_multiset().len());
        assert(dv.len() == dv.to_multiset().len());
    }
    out
}

// ---------------------------------------------------------------------------
// Host validation
// ---------------------------------------------------------------------------

/// Accepts exactly the inputs that parse as well-formed URLs; used to
/// validate the tracker host during interactive initialization.
#[derive(Clone)]
pub struct UrlValidator {}

impl Default for UrlValidator {
    fn default() -> (r: Self)
        ensures
            r == (UrlValidator {}),
    {
        UrlValidator {}
    }
}

impl UrlValidator {
    pub fn validate(&self, input: &str) -> (r: bool)
        ensures
            r == crate::jira::spec_parses_as_url(input@),
    {
        match crate::jira::validate_url(input) {
            Ok(_) => true,
            Err(_) => false,
        }
    }
}

} // verus!
