//! The context of one bead.

use crate::claims::{Claim, ClaimView};
use vstd::prelude::*;

verus! {

/// What the context says of the bead's claim.
pub open spec fn claim_lines(claim: Option<ClaimView>) -> Seq<char> {
    match claim {
        Some(c) => "- **Status**: In Progress (Claimed by "@ + c.agent_id + ")\n"@
            + "- **Branch**: `"@ + c.branch_name + "`\n"@,
        None => "- **Status**: Unknown / Not Claimed\n"@,
    }
}

/// What every context of a bead ends with.
pub open spec fn objectives() -> Seq<char> {
    "\n## Objectives\n1. Fulfill the requirements of this specific bead.\n2. Ensure all tests pass within this isolated worktree.\n3. Release the bead when done using `bacchus release`.\n"@
}

/// The context of the bead `bead_id`, given its claim.
pub open spec fn task_context(bead_id: Seq<char>, claim: Option<ClaimView>) -> Seq<char> {
    "# Task Context: "@ + bead_id + "\n\n"@ + claim_lines(claim) + objectives()
}

/// Writes the context of the bead `bead_id` for the agent that works on
/// it: who has claimed the bead and on which branch, if anyone has, and
/// what is to be done.
pub fn generate_task_context(bead_id: &str, claim: Option<&Claim>) -> (text: String)
    ensures
        text@ == task_context(bead_id@, claim.deep_view()),
{
    let mut out = String::from_str("# Task Context: ");
    out.append(bead_id);
    out.append("\n\n");
    let ghost head = out@;
    match claim {
        Some(c) => {
            out.append("- **Status**: In Progress (Claimed by ");
            out.append(c.agent_id.as_str());
            out.append(")\n");
            out.append("- **Branch**: `");
            out.append(c.branch_name.as_str());
            out.append("`\n");
            assert(out@ =~= head + claim_lines(Some(c@)));
        },
        None => {
            out.append("- **Status**: Unknown / Not Claimed\n");
        },
    }
    out.append(
        "\n## Objectives\n1. Fulfill the requirements of this specific bead.\n2. Ensure all tests pass within this isolated worktree.\n3. Release the bead when done using `bacchus release`.\n",
    );
    out
}

} // verus!
