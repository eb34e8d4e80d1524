//! Small text helpers: case folding for the skip list and local path joining.

use vstd::prelude::*;
use vstd::string::StringExecFns;

verus! {

/// The lowercase form of a sequence of characters, as std's case folding
/// produces it. The folding depends on the characters alone.
pub uninterp spec fn lower_of(s: Seq<char>) -> Seq<char>;

/// Relies on str::to_lowercase: the result depends on the characters alone.
#[verifier::external_body]
pub(crate) fn lowercase(s: &str) -> (r: String)
    ensures
        r@ == lower_of(s@),
{
    s.to_lowercase()
}

/// The base path, one '/', and the name.
pub(crate) fn join_path(base: &str, name: &str) -> (r: String)
    ensures
        r@ == base@ + seq!['/'] + name@,
{
    let mut r = base.to_owned();
    r.append("/");
    r.append(name);
    proof {
        reveal_strlit("/");
        assert("/"@ =~= seq!['/']);
        assert(base@ + "/"@ + name@ =~= base@ + seq!['/'] + name@);
    }
    r
}

/// A folder name is skipped when its lowercase form is one of the configured
/// skip-list entries.
pub open spec fn spec_skipped(skip: Seq<String>, name: Seq<char>) -> bool {
    exists|i: int| 0 <= i < skip.len() && skip[i]@ == lower_of(name)
}

/// Case-insensitive membership of a folder name in the skip list.
pub fn is_skipped(skip: &Vec<String>, name: &str) -> (r: bool)
    ensures
        r == spec_skipped(skip@, name@),
{
    let lowered = lowercase(name);
    let mut i: usize = 0;
    while i < skip.len()
        invariant
            0 <= i <= skip@.len(),
            lowered@ == lower_of(name@),
            forall|j: int| 0 <= j < i ==> skip@[j]@ != lower_of(name@),
        decreases skip@.len() - i,
    {
        let entry = &skip[i];
        if entry.eq(&lowered) {
            proof {
                assert(skip@[i as int]@ == lower_of(name@));
            }
            return true;
        }
        i = i + 1;
    }
    false
}

} // verus!
