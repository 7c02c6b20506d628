//! The context of the project as a whole.

use crate::beads::{BeadInfo, BeadInfoView};
use crate::claims::{Claim, ClaimView};
use crate::text::{decimal_text, push_decimal};
use vstd::prelude::*;

verus! {

/// How many ready beads the context lists.
pub const READY_SHOWN: usize = 10;

/// The rows of the table of claims.
pub open spec fn claim_rows(claims: Seq<ClaimView>) -> Seq<char>
    decreases claims.len(),
{
    if claims.len() == 0 {
        Seq::empty()
    } else {
        claim_rows(claims.drop_last()) + "| "@ + claims.last().bead_id + " | "@
            + claims.last().agent_id + " |\n"@
    }
}

/// The rows of the table of ready beads.
pub open spec fn bead_rows(beads: Seq<BeadInfoView>) -> Seq<char>
    decreases beads.len(),
{
    if beads.len() == 0 {
        Seq::empty()
    } else {
        bead_rows(beads.drop_last()) + "| "@ + beads.last().id + " | "@ + beads.last().title
            + " |\n"@
    }
}

/// What the context says of the active claims.
pub open spec fn claims_section(claims: Seq<ClaimView>) -> Seq<char> {
    if claims.len() == 0 {
        "_No active claims._\n"@
    } else {
        "| Bead ID | Agent |\n|---|---|\n"@ + claim_rows(claims)
    }
}

/// What the context says of the ready beads: the first ten, and how many
/// more there are.
pub open spec fn ready_section(ready: Seq<BeadInfoView>) -> Seq<char> {
    if ready.len() == 0 {
        "_No ready beads. Use `beads-planner` to create new work._\n"@
    } else if ready.len() <= 10 {
        "| Bead ID | Title |\n|---|---|\n"@ + bead_rows(ready)
    } else {
        "| Bead ID | Title |\n|---|---|\n"@ + bead_rows(ready.take(10)) + "_...and "@
            + decimal_text(ready.len() - 10) + " more._\n"@
    }
}

/// The context of the project, given its active claims and its ready
/// beads.
pub open spec fn global_context(claims: Seq<ClaimView>, ready: Seq<BeadInfoView>) -> Seq<char> {
    "# Project Orchestration Context\n\nYou are the **Orchestrator Agent**. Your goal is to coordinate work using `beads` and `bacchus`.\n\n## Active Claims\n"@
        + claims_section(claims) + "\n## Ready for Assignment\n"@ + ready_section(ready)
}

fn push_claim_rows(out: &mut String, claims: &Vec<Claim>)
    ensures
        final(out)@ == old(out)@ + claim_rows(claims.deep_view()),
{
    let ghost all = claims.deep_view();
    let ghost head = out@;
    let mut i: usize = 0;
    assert(all.take(0) =~= Seq::<ClaimView>::empty());
    assert(out@ =~= head + claim_rows(all.take(0)));
    while i < claims.len()
        invariant
            i <= claims.len(),
            all == claims.deep_view(),
            out@ == head + claim_rows(all.take(i as int)),
        decreases claims.len() - i,
    {
        let ghost before = out@;
        out.append("| ");
        out.append(claims[i].bead_id.as_str());
        out.append(" | ");
        out.append(claims[i].agent_id.as_str());
        out.append(" |\n");
        proof {
            assert(all.take(i + 1).drop_last() =~= all.take(i as int));
            assert(all.take(i + 1).last() == claims[i as int]@);
            assert(out@ =~= head + claim_rows(all.take(i + 1)));
        }
        i += 1;
    }
    assert(all.take(claims.len() as int) =~= all);
}

fn push_bead_rows(out: &mut String, beads: &Vec<BeadInfo>, shown: usize)
    requires
        shown <= beads.len(),
    ensures
        final(out)@ == old(out)@ + bead_rows(beads.deep_view().take(shown as int)),
{
    let ghost all = beads.deep_view();
    let ghost head = out@;
    let mut i: usize = 0;
    assert(all.take(0) =~= Seq::<BeadInfoView>::empty());
    assert(out@ =~= head + bead_rows(all.take(0)));
    while i < shown
        invariant
            i <= shown <= beads.len(),
            all == beads.deep_view(),
            out@ == head + bead_rows(all.take(i as int)),
        decreases shown - i,
    {
        out.append("| ");
        out.append(beads[i].id.as_str());
        out.append(" | ");
        out.append(beads[i].title.as_str());
        out.append(" |\n");
        proof {
            assert(all.take(i + 1).drop_last() =~= all.take(i as int));
            assert(all.take(i + 1).last() == beads[i as int]@);
            assert(out@ =~= head + bead_rows(all.take(i + 1)));
        }
        i += 1;
    }
}

/// Writes the context of the project for the agent that hands out work:
/// who is working on what, and which beads are ready to be handed out.
pub fn generate_global_context(claims: &Vec<Claim>, ready_beads: &Vec<BeadInfo>) -> (text: String)
    ensures
        text@ == global_context(claims.deep_view(), ready_beads.deep_view()),
{
    let mut out = String::from_str(
        "# Project Orchestration Context\n\nYou are the **Orchestrator Agent**. Your goal is to coordinate work using `beads` and `bacchus`.\n\n## Active Claims\n",
    );
    let ghost head = out@;
    if claims.len() == 0 {
        out.append("_No active claims._\n");
    } else {
        out.append("| Bead ID | Agent |\n|---|---|\n");
        push_claim_rows(&mut out, claims);
    }
    assert(out@ =~= head + claims_section(claims.deep_view()));
    out.append("\n## Ready for Assignment\n");
    let ghost middle = out@;
    if ready_beads.len() == 0 {
        out.append("_No ready beads. Use `beads-planner` to create new work._\n");
    } else {
        out.append("| Bead ID | Title |\n|---|---|\n");
        if ready_beads.len() <= READY_SHOWN {
            push_bead_rows(&mut out, ready_beads, ready_beads.len());
            assert(ready_beads.deep_view().take(ready_beads.len() as int)
                =~= ready_beads.deep_view());
        } else {
            push_bead_rows(&mut out, ready_beads, READY_SHOWN);
            out.append("_...and ");
            push_decimal(&mut out, (ready_beads.len() - READY_SHOWN) as i128);
            out.append(" more._\n");
        }
    }
    assert(out@ =~= middle + ready_section(ready_beads.deep_view()));
    out
}

} // verus!
