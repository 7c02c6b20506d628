//! Sessions: what an agent has set out to do, and whether it may stop.

use crate::beads::{BeadInfo, BeadInfoView};
use crate::text::{decimal_text, joined, push_decimal, push_joined, same};
use vstd::prelude::*;

verus! {

/// What a session holds: its mode, the bead of an agent or the limit of an
/// orchestrator, and when it started.
#[derive(Debug, Clone, PartialEq, Eq)]
pub struct Session {
    pub mode: String,
    pub bead_id: Option<String>,
    pub max_concurrent: Option<i32>,
    pub started_at: String,
}

/// What a [`Session`] holds, as mathematical values.
pub struct SessionView {
    pub mode: Seq<char>,
    pub bead_id: Option<Seq<char>>,
    pub max_concurrent: Option<i32>,
    pub started_at: Seq<char>,
}

impl View for Session {
    type V = SessionView;

    open spec fn view(&self) -> SessionView {
        SessionView {
            mode: self.mode@,
            bead_id: self.bead_id.deep_view(),
            max_concurrent: self.max_concurrent,
            started_at: self.started_at@,
        }
    }
}

/// Whether an agent may stop, and why.
#[derive(Debug, PartialEq, Eq)]
pub struct HookCheckOutput {
    /// `approve` or `block`.
    pub decision: String,
    pub reason: String,
}

/// What a check of a session comes to: the decision, and whether the
/// session is over and its record to be cleared.
#[derive(Debug, PartialEq, Eq)]
pub struct HookCheck {
    pub output: HookCheckOutput,
    pub clear_session: bool,
}

/// What a [`HookCheck`] holds, as mathematical values.
pub struct HookCheckView {
    pub approve: bool,
    pub reason: Seq<char>,
    pub clear_session: bool,
}

/// Whether `check` is the check with the mathematical values `view`.
pub open spec fn is_check(check: HookCheck, view: HookCheckView) -> bool {
    &&& check.output.decision@ == if view.approve {
        "approve"@
    } else {
        "block"@
    }
    &&& check.output.reason@ == view.reason
    &&& check.clear_session == view.clear_session
}

/// How many agents an orchestrator keeps at work where its session names
/// no limit.
pub const DEFAULT_MAX_CONCURRENT: i32 = 3;

/// The session that starts in `mode` at `started_at`: an agent's session
/// needs a bead; an orchestrator's session has a limit of agents; no other
/// mode is known.
pub open spec fn session_of(
    mode: Seq<char>,
    bead_id: Option<Seq<char>>,
    max_concurrent: i32,
    started_at: Seq<char>,
) -> Result<SessionView, Seq<char>> {
    if mode == "agent"@ {
        match bead_id {
            Some(b) => Ok(
                SessionView { mode, bead_id: Some(b), max_concurrent: None, started_at },
            ),
            None => Err("bead_id required for agent mode"@),
        }
    } else if mode == "orchestrator"@ {
        Ok(SessionView { mode, bead_id: None, max_concurrent: Some(max_concurrent), started_at })
    } else {
        Err("Unknown mode: "@ + mode + ". Use 'agent' or 'orchestrator'"@)
    }
}

/// Starts a session in `mode` (`agent` or `orchestrator`) at `started_at`:
/// returns the session to be recorded, or why none can start.
pub fn start_session(mode: &str, bead_id: Option<&str>, max_concurrent: i32, started_at: &str) -> (r:
    Result<Session, String>)
    ensures
        match r {
            Ok(s) => session_of(mode@, bead_id.deep_view(), max_concurrent, started_at@) == Ok::<
                SessionView,
                Seq<char>,
            >(s@),
            Err(m) => session_of(mode@, bead_id.deep_view(), max_concurrent, started_at@) == Err::<
                SessionView,
                Seq<char>,
            >(m@),
        },
{
    if same(mode, "agent") {
        match bead_id {
            Some(b) => Ok(
                Session {
                    mode: mode.to_string(),
                    bead_id: Some(b.to_string()),
                    max_concurrent: None,
                    started_at: started_at.to_string(),
                },
            ),
            None => Err(String::from_str("bead_id required for agent mode")),
        }
    } else if same(mode, "orchestrator") {
        Ok(
            Session {
                mode: mode.to_string(),
                bead_id: None,
                max_concurrent: Some(max_concurrent),
                started_at: started_at.to_string(),
            },
        )
    } else {
        Err(
            String::from_str("Unknown mode: ").concat(mode).concat(
                ". Use 'agent' or 'orchestrator'",
            ),
        )
    }
}

fn approve(reason: String, clear_session: bool) -> (check: HookCheck)
    ensures
        is_check(check, HookCheckView { approve: true, reason: reason@, clear_session }),
{
    HookCheck {
        output: HookCheckOutput { decision: String::from_str("approve"), reason },
        clear_session,
    }
}

fn block(reason: String) -> (check: HookCheck)
    ensures
        is_check(check, HookCheckView { approve: false, reason: reason@, clear_session: false }),
{
    HookCheck {
        output: HookCheckOutput { decision: String::from_str("block"), reason },
        clear_session: false,
    }
}

/// What the check of an agent's session comes to, given the bead as the
/// tracker holds it, or the message of the tracker's failure.
///
/// A session without a bead lets the agent stop. So does a bead that
/// cannot be fetched. A closed bead lets the agent stop and ends the
/// session. Any other bead keeps the agent at work.
pub open spec fn agent_check(session: SessionView, bead: Option<Result<BeadInfoView, Seq<char>>>) -> HookCheckView {
    match (session.bead_id, bead) {
        (Some(id), Some(Ok(b))) => if b.status == "closed"@ {
            HookCheckView {
                approve: true,
                reason: "Bead "@ + id + " is closed. Session cleared."@,
                clear_session: true,
            }
        } else {
            HookCheckView {
                approve: false,
                reason: "Bead "@ + id + " status is '"@ + b.status
                    + "'. Continue working until complete, then run 'bd close "@ + id + "'."@,
                clear_session: false,
            }
        },
        (Some(id), Some(Err(m))) => HookCheckView {
            approve: true,
            reason: "Cannot check bead status: "@ + m,
            clear_session: false,
        },
        _ => HookCheckView {
            approve: true,
            reason: "No bead ID in session"@,
            clear_session: false,
        },
    }
}

/// Checks an agent's session against the bead that the tracker holds for
/// it: `bead` is what fetching the session's bead gave, and is not looked at
/// where the session names no bead.
pub fn check_agent_session(session: &Session, bead: Option<Result<BeadInfo, String>>) -> (check:
    HookCheck)
    ensures
        is_check(
            check,
            agent_check(
                session@,
                match bead {
                    Some(Ok(b)) => Some(Ok(b@)),
                    Some(Err(m)) => Some(Err(m@)),
                    None => None,
                },
            ),
        ),
{
    let id = match &session.bead_id {
        Some(id) => id,
        None => {
            return approve(String::from_str("No bead ID in session"), false);
        },
    };
    match bead {
        Some(Ok(b)) => {
            if same(b.status.as_str(), "closed") {
                approve(
                    String::from_str("Bead ").concat(id.as_str()).concat(
                        " is closed. Session cleared.",
                    ),
                    true,
                )
            } else {
                block(
                    String::from_str("Bead ").concat(id.as_str()).concat(" status is '").concat(
                        b.status.as_str(),
                    ).concat("'. Continue working until complete, then run 'bd close ").concat(
                        id.as_str(),
                    ).concat("'."),
                )
            }
        },
        Some(Err(m)) => approve(
            String::from_str("Cannot check bead status: ").concat(m.as_str()),
            false,
        ),
        None => approve(String::from_str("No bead ID in session"), false),
    }
}

/// How many agents can be started: as many as beads are ready, up to the
/// places that are free below the limit. A negative limit is no limit.
pub open spec fn agents_to_spawn(ready: int, active: int, limit: int) -> int {
    if limit < 0 {
        ready
    } else if active >= limit {
        0
    } else if ready <= limit - active {
        ready
    } else {
        limit - active
    }
}

/// The identifiers of `beads`, in their order.
pub open spec fn ids_of(beads: Seq<BeadInfoView>) -> Seq<Seq<char>> {
    Seq::new(beads.len(), |i: int| beads[i].id)
}

/// What the check of an orchestrator's session comes to, given the ready
/// beads and the number of active claims.
///
/// While beads are ready and places are free below the limit of agents,
/// the orchestrator is kept at work and told which beads to hand out. Else,
/// while agents are at work, it is kept waiting. Once nothing is ready and
/// no agent is at work, it may stop and the session ends.
pub open spec fn orchestrator_check(
    session: SessionView,
    ready: Seq<BeadInfoView>,
    active: int,
) -> HookCheckView {
    let limit: int = match session.max_concurrent {
        Some(n) => n as int,
        None => 3,
    };
    let spawn = agents_to_spawn(ready.len() as int, active, limit);
    if ready.len() > 0 && (limit < 0 || active < limit) {
        HookCheckView {
            approve: false,
            reason: "Ready to spawn "@ + decimal_text(spawn) + " agent(s) for: "@ + joined(
                ids_of(ready.take(spawn)),
                ", "@,
            ) + ". Active: "@ + decimal_text(active) + "/"@ + decimal_text(limit)
                + ". Use 'bacchus claim <bead_id> <agent_id>' to claim."@,
            clear_session: false,
        }
    } else if active > 0 {
        HookCheckView {
            approve: false,
            reason: "Waiting for "@ + decimal_text(active)
                + " active agent(s) to complete. Check with 'bacchus list'."@,
            clear_session: false,
        }
    } else if ready.len() == 0 {
        HookCheckView {
            approve: true,
            reason: "All work complete or blocked. Session cleared."@,
            clear_session: true,
        }
    } else {
        HookCheckView { approve: true, reason: "Orchestrator complete"@, clear_session: false }
    }
}

/// Checks an orchestrator's session against the beads that are ready and
/// the number of claims that are active.
pub fn check_orchestrator_session(session: &Session, ready_beads: &Vec<BeadInfo>, active_count: usize) -> (check:
    HookCheck)
    ensures
        is_check(
            check,
            orchestrator_check(session@, ready_beads.deep_view(), active_count as int),
        ),
{
    let limit: i32 = match session.max_concurrent {
        Some(n) => n,
        None => DEFAULT_MAX_CONCURRENT,
    };
    let ready_count = ready_beads.len();
    if ready_count > 0 && (limit < 0 || active_count < limit as usize) {
        let spawn: usize = if limit < 0 {
            ready_count
        } else {
            let slots = limit as usize - active_count;
            if ready_count <= slots {
                ready_count
            } else {
                slots
            }
        };
        let mut ids: Vec<String> = Vec::new();
        let mut i: usize = 0;
        while i < spawn
            invariant
                i <= spawn <= ready_beads.len(),
                ids.len() == i,
                forall|j: int| 0 <= j < i ==> (#[trigger] ids[j])@ == ready_beads[j].id@,
            decreases spawn - i,
        {
            ids.push(ready_beads[i].id.clone());
            i += 1;
        }
        assert(ids.deep_view() =~= ids_of(ready_beads.deep_view().take(spawn as int)));
        let mut reason = String::from_str("Ready to spawn ");
        push_decimal(&mut reason, spawn as i128);
        reason.append(" agent(s) for: ");
        push_joined(&mut reason, &ids, ", ");
        reason.append(". Active: ");
        push_decimal(&mut reason, active_count as i128);
        reason.append("/");
        push_decimal(&mut reason, limit as i128);
        reason.append(". Use 'bacchus claim <bead_id> <agent_id>' to claim.");
        block(reason)
    } else if active_count > 0 {
        let mut reason = String::from_str("Waiting for ");
        push_decimal(&mut reason, active_count as i128);
        reason.append(" active agent(s) to complete. Check with 'bacchus list'.");
        block(reason)
    } else if ready_count == 0 {
        approve(String::from_str("All work complete or blocked. Session cleared."), true)
    } else {
        approve(String::from_str("Orchestrator complete"), false)
    }
}

/// What a check comes to for a session in a mode that is not known.
pub open spec fn unknown_mode_check(mode: Seq<char>) -> HookCheckView {
    HookCheckView {
        approve: true,
        reason: "Unknown session mode: "@ + mode,
        clear_session: false,
    }
}

/// What is needed to check a session.
#[derive(Debug, PartialEq, Eq)]
pub enum SessionNeeds {
    /// The bead of an agent's session, fetched from the tracker.
    Bead(String),
    /// The ready beads and the number of active claims.
    Workload,
    /// Nothing: the check is made.
    Nothing(HookCheck),
}

/// Says what has to be looked up before `session` can be checked: the bead
/// of an agent's session, the workload for an orchestrator's session. A
/// session of an agent without a bead, or in a mode that is not known, is
/// checked at once and lets the agent stop.
pub fn check_session(session: &Session) -> (needs: SessionNeeds)
    ensures
        match needs {
            SessionNeeds::Bead(id) => session.mode@ == "agent"@ && session.bead_id.deep_view()
                == Some(id@),
            SessionNeeds::Workload => session.mode@ == "orchestrator"@ && session.mode@
                != "agent"@,
            SessionNeeds::Nothing(check) => if session.mode@ == "agent"@ {
                session.bead_id is None && is_check(check, agent_check(session@, None))
            } else {
                session.mode@ != "orchestrator"@ && is_check(
                    check,
                    unknown_mode_check(session.mode@),
                )
            },
        },
{
    if same(session.mode.as_str(), "agent") {
        match &session.bead_id {
            Some(id) => SessionNeeds::Bead(id.clone()),
            None => SessionNeeds::Nothing(check_agent_session(session, None)),
        }
    } else if same(session.mode.as_str(), "orchestrator") {
        SessionNeeds::Workload
    } else {
        SessionNeeds::Nothing(
            approve(
                String::from_str("Unknown session mode: ").concat(session.mode.as_str()),
                false,
            ),
        )
    }
}

/// What a check comes to where no session can be read: the agent may stop.
/// `found` tells whether a record of a session was found at all; if one
/// was, `readable` tells whether it could be read, and where it could,
/// whether it holds a session.
pub fn check_without_session(found: bool, readable: bool) -> (check: HookCheck)
    ensures
        is_check(
            check,
            HookCheckView {
                approve: true,
                reason: if !found {
                    "No bacchus session active"@
                } else if !readable {
                    "Cannot read session file"@
                } else {
                    "Invalid session file"@
                },
                clear_session: false,
            },
        ),
{
    if !found {
        approve(String::from_str("No bacchus session active"), false)
    } else if !readable {
        approve(String::from_str("Cannot read session file"), false)
    } else {
        approve(String::from_str("Invalid session file"), false)
    }
}

} // verus!
