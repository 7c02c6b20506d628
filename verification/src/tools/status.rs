//! What stands where: claims without a worktree, and worktrees without a
//! claim.

use crate::claims::{Claim, ClaimView};
use crate::text::{after_text, last_part, same};
use vstd::prelude::*;

verus! {

/// The worktree paths of `claims`, in their order.
pub open spec fn paths_of(claims: Seq<ClaimView>) -> Seq<Seq<char>> {
    Seq::new(claims.len(), |i: int| claims[i].worktree_path)
}

/// The names of the directories among `found` that no claim has for its
/// worktree, in the order of `found`: the name of a directory is what
/// stands after the last slash of its path.
pub open spec fn orphans_of(found: Seq<Seq<char>>, claimed: Seq<Seq<char>>) -> Seq<Seq<char>>
    decreases found.len(),
{
    if found.len() == 0 {
        Seq::empty()
    } else if claimed.contains(found.last()) {
        orphans_of(found.drop_last(), claimed)
    } else {
        orphans_of(found.drop_last(), claimed).push(last_part(found.last(), "/"@))
    }
}

/// The beads of the claims among `claims` whose worktree path is not among
/// `present`, in the order of `claims`.
pub open spec fn broken_of(claims: Seq<ClaimView>, present: Seq<Seq<char>>) -> Seq<Seq<char>>
    decreases claims.len(),
{
    if claims.len() == 0 {
        Seq::empty()
    } else if present.contains(claims.last().worktree_path) {
        broken_of(claims.drop_last(), present)
    } else {
        broken_of(claims.drop_last(), present).push(claims.last().bead_id)
    }
}

fn holds(texts: &Vec<String>, text: &str) -> (r: bool)
    ensures
        r == texts.deep_view().contains(text@),
{
    let mut i: usize = 0;
    while i < texts.len()
        invariant
            i <= texts.len(),
            forall|j: int| 0 <= j < i ==> (#[trigger] texts.deep_view()[j]) != text@,
        decreases texts.len() - i,
    {
        if same(texts[i].as_str(), text) {
            assert(texts.deep_view()[i as int] == text@);
            return true;
        }
        i += 1;
    }
    false
}

fn is_claimed(claims: &Vec<Claim>, path: &str) -> (r: bool)
    ensures
        r == paths_of(claims.deep_view()).contains(path@),
{
    let ghost paths = paths_of(claims.deep_view());
    let mut i: usize = 0;
    while i < claims.len()
        invariant
            i <= claims.len(),
            paths == paths_of(claims.deep_view()),
            forall|j: int| 0 <= j < i ==> (#[trigger] paths[j]) != path@,
        decreases claims.len() - i,
    {
        assert(paths[i as int] == claims[i as int].worktree_path@);
        if same(claims[i].worktree_path.as_str(), path) {
            return true;
        }
        i += 1;
    }
    false
}

/// The worktrees without a claim: the names of the directories `found`
/// below the directory of the worktrees that are the worktree of no claim
/// among `claims`.
pub fn orphaned_worktrees(found: &Vec<String>, claims: &Vec<Claim>) -> (names: Vec<String>)
    ensures
        names.deep_view() == orphans_of(found.deep_view(), paths_of(claims.deep_view())),
{
    let ghost all = found.deep_view();
    let ghost claimed = paths_of(claims.deep_view());
    let mut names: Vec<String> = Vec::new();
    let mut i: usize = 0;
    assert(all.take(0) =~= Seq::<Seq<char>>::empty());
    assert(names.deep_view() =~= orphans_of(all.take(0), claimed));
    while i < found.len()
        invariant
            i <= found.len(),
            all == found.deep_view(),
            claimed == paths_of(claims.deep_view()),
            names.deep_view() == orphans_of(all.take(i as int), claimed),
        decreases found.len() - i,
    {
        let ghost before = names.deep_view();
        assert(all.take(i + 1).drop_last() =~= all.take(i as int));
        assert(all.take(i + 1).last() == found[i as int]@);
        if !is_claimed(claims, found[i].as_str()) {
            names.push(after_text(found[i].as_str(), "/"));
            assert(names.deep_view() =~= before.push(last_part(found[i as int]@, "/"@)));
        }
        i += 1;
    }
    assert(all.take(found.len() as int) =~= all);
    names
}

/// The claims without a worktree: the beads of the claims among `claims`
/// whose worktree path is not among `present`, the paths that were found
/// to exist.
pub fn broken_claims(claims: &Vec<Claim>, present: &Vec<String>) -> (beads: Vec<String>)
    ensures
        beads.deep_view() == broken_of(claims.deep_view(), present.deep_view()),
{
    let ghost all = claims.deep_view();
    let mut beads: Vec<String> = Vec::new();
    let mut i: usize = 0;
    assert(all.take(0) =~= Seq::<ClaimView>::empty());
    assert(beads.deep_view() =~= broken_of(all.take(0), present.deep_view()));
    while i < claims.len()
        invariant
            i <= claims.len(),
            all == claims.deep_view(),
            beads.deep_view() == broken_of(all.take(i as int), present.deep_view()),
        decreases claims.len() - i,
    {
        let ghost before = beads.deep_view();
        assert(all.take(i + 1).drop_last() =~= all.take(i as int));
        assert(all.take(i + 1).last() == claims[i as int]@);
        if !holds(present, claims[i].worktree_path.as_str()) {
            beads.push(claims[i].bead_id.clone());
            assert(beads.deep_view() =~= before.push(claims[i as int].bead_id@));
        }
        i += 1;
    }
    assert(all.take(claims.len() as int) =~= all);
    beads
}

} // verus!
