use bacchus::beads::BeadInfo;
use bacchus::claims::Claim;
use bacchus::cli::{Commands, DEFAULT_RELEASE_STATUS, DEFAULT_STALE_MINUTES, WORKFLOW_DOC};
use bacchus::tools::context::{
    generate_context, generate_global_context, generate_task_context, ContextTarget,
};
use bacchus::tools::coordination::{
    estimate_task_size, footprint_summary, god_symbol_warning, is_god_symbol, preserved_context,
    stale_task_info, stale_workplan_summary, subtask, symbol_overlap, workplan_summary,
    CreatesSpec, DiffSummary, ListStaleTasksInput, ModifiesSpec, TaskEstimation, Workplan,
};
use bacchus::tools::session::{
    check_agent_session, check_orchestrator_session, check_session, check_without_session,
    start_session, Session, SessionNeeds,
};

fn claim(bead: &str, agent: &str) -> Claim {
    Claim {
        bead_id: bead.to_string(),
        agent_id: agent.to_string(),
        worktree_path: format!("/w/{}", bead),
        branch_name: format!("bacchus/{}", bead),
        start_commit: "c".to_string(),
        claimed_at: 0,
    }
}

fn bead(id: &str, status: &str) -> BeadInfo {
    BeadInfo {
        id: id.to_string(),
        title: format!("Title {}", id),
        description: None,
        priority: "P1".to_string(),
        status: status.to_string(),
    }
}

#[test]
fn task_context_names_owner_and_branch() {
    let c = claim("BEAD-1", "agent-a");
    assert_eq!(
        generate_task_context("BEAD-1", Some(&c)),
        "# Task Context: BEAD-1\n\n- **Status**: In Progress (Claimed by agent-a)\n- **Branch**: `bacchus/BEAD-1`\n\n## Objectives\n1. Fulfill the requirements of this specific bead.\n2. Ensure all tests pass within this isolated worktree.\n3. Release the bead when done using `bacchus release`.\n"
    );
    assert_eq!(
        generate_task_context("B", None),
        "# Task Context: B\n\n- **Status**: Unknown / Not Claimed\n\n## Objectives\n1. Fulfill the requirements of this specific bead.\n2. Ensure all tests pass within this isolated worktree.\n3. Release the bead when done using `bacchus release`.\n"
    );
}

#[test]
fn global_context_lists_claims_and_ten_ready_beads() {
    let head = "# Project Orchestration Context\n\nYou are the **Orchestrator Agent**. Your goal is to coordinate work using `beads` and `bacchus`.\n\n## Active Claims\n";
    assert_eq!(
        generate_global_context(&Vec::new(), &Vec::new()),
        format!("{}_No active claims._\n\n## Ready for Assignment\n_No ready beads. Use `beads-planner` to create new work._\n", head)
    );
    let claims = vec![claim("B1", "a"), claim("B2", "b")];
    let ready: Vec<BeadInfo> = (0..12).map(|i| bead(&format!("R{}", i), "open")).collect();
    let text = generate_global_context(&claims, &ready);
    let mut expected = format!("{}| Bead ID | Agent |\n|---|---|\n| B1 | a |\n| B2 | b |\n\n## Ready for Assignment\n| Bead ID | Title |\n|---|---|\n", head);
    for i in 0..10 {
        expected.push_str(&format!("| R{} | Title R{} |\n", i, i));
    }
    expected.push_str("_...and 2 more._\n");
    assert_eq!(text, expected);
    let ten: Vec<BeadInfo> = (0..10).map(|i| bead(&format!("R{}", i), "open")).collect();
    assert!(!generate_global_context(&claims, &ten).contains("more"));
    assert!(generate_global_context(&claims, &ten).contains("| R9 | Title R9 |\n"));
}

#[test]
fn context_is_about_the_bead_of_the_worktree() {
    let dir = "/ws/.bacchus/worktrees";
    assert_eq!(
        generate_context(Some("B".to_string()), "/anywhere", dir),
        ContextTarget::Task("B".to_string())
    );
    assert_eq!(
        generate_context(None, "/ws/.bacchus/worktrees/BEAD-7/src/deep", dir),
        ContextTarget::Task("BEAD-7".to_string())
    );
    assert_eq!(
        generate_context(None, "/ws/.bacchus/worktrees/BEAD-7", dir),
        ContextTarget::Task("BEAD-7".to_string())
    );
    assert_eq!(generate_context(None, "/ws/.bacchus/worktrees", dir), ContextTarget::Global);
    assert_eq!(generate_context(None, "/ws/.bacchus/worktrees/", dir), ContextTarget::Global);
    assert_eq!(generate_context(None, "/ws/.bacchus/worktrees-old/x", dir), ContextTarget::Global);
    assert_eq!(generate_context(None, "/ws/src", dir), ContextTarget::Global);
}

#[test]
fn sessions_start_in_two_modes() {
    assert_eq!(
        start_session("agent", Some("B"), 3, "2026-01-01T00:00:00+00:00"),
        Ok(Session {
            mode: "agent".to_string(),
            bead_id: Some("B".to_string()),
            max_concurrent: None,
            started_at: "2026-01-01T00:00:00+00:00".to_string(),
        })
    );
    assert_eq!(
        start_session("agent", None, 3, "t"),
        Err("bead_id required for agent mode".to_string())
    );
    assert_eq!(
        start_session("orchestrator", Some("ignored"), 5, "t"),
        Ok(Session {
            mode: "orchestrator".to_string(),
            bead_id: None,
            max_concurrent: Some(5),
            started_at: "t".to_string(),
        })
    );
    assert_eq!(
        start_session("watcher", None, 3, "t"),
        Err("Unknown mode: watcher. Use 'agent' or 'orchestrator'".to_string())
    );
}

fn agent(bead_id: Option<&str>) -> Session {
    Session {
        mode: "agent".to_string(),
        bead_id: bead_id.map(|b| b.to_string()),
        max_concurrent: None,
        started_at: "t".to_string(),
    }
}

fn orchestrator(max: Option<i32>) -> Session {
    Session {
        mode: "orchestrator".to_string(),
        bead_id: None,
        max_concurrent: max,
        started_at: "t".to_string(),
    }
}

#[test]
fn agent_is_kept_at_work_until_its_bead_is_closed() {
    let s = agent(Some("B"));
    let check = check_agent_session(&s, Some(Ok(bead("B", "in_progress"))));
    assert_eq!(check.output.decision, "block");
    assert_eq!(
        check.output.reason,
        "Bead B status is 'in_progress'. Continue working until complete, then run 'bd close B'."
    );
    assert!(!check.clear_session);
    let check = check_agent_session(&s, Some(Ok(bead("B", "closed"))));
    assert_eq!(check.output.decision, "approve");
    assert_eq!(check.output.reason, "Bead B is closed. Session cleared.");
    assert!(check.clear_session);
    let check = check_agent_session(&s, Some(Err("Bead not found: B".to_string())));
    assert_eq!(check.output.decision, "approve");
    assert_eq!(check.output.reason, "Cannot check bead status: Bead not found: B");
    let check = check_agent_session(&agent(None), Some(Ok(bead("B", "open"))));
    assert_eq!(check.output.reason, "No bead ID in session");
    let check = check_agent_session(&s, None);
    assert_eq!(check.output.decision, "approve");
}

#[test]
fn orchestrator_hands_out_work_while_places_are_free() {
    let ready: Vec<BeadInfo> = (1..=5).map(|i| bead(&format!("B{}", i), "open")).collect();
    let check = check_orchestrator_session(&orchestrator(Some(3)), &ready, 1);
    assert_eq!(check.output.decision, "block");
    assert_eq!(
        check.output.reason,
        "Ready to spawn 2 agent(s) for: B1, B2. Active: 1/3. Use 'bacchus claim <bead_id> <agent_id>' to claim."
    );
    let check = check_orchestrator_session(&orchestrator(None), &ready[..1].to_vec(), 0);
    assert_eq!(
        check.output.reason,
        "Ready to spawn 1 agent(s) for: B1. Active: 0/3. Use 'bacchus claim <bead_id> <agent_id>' to claim."
    );
    let check = check_orchestrator_session(&orchestrator(Some(2)), &ready, 2);
    assert_eq!(check.output.decision, "block");
    assert_eq!(
        check.output.reason,
        "Waiting for 2 active agent(s) to complete. Check with 'bacchus list'."
    );
    let check = check_orchestrator_session(&orchestrator(Some(2)), &Vec::new(), 0);
    assert_eq!(check.output.decision, "approve");
    assert_eq!(check.output.reason, "All work complete or blocked. Session cleared.");
    assert!(check.clear_session);
    let check = check_orchestrator_session(&orchestrator(Some(0)), &ready, 0);
    assert_eq!(check.output.decision, "approve");
    assert_eq!(check.output.reason, "Orchestrator complete");
    assert!(!check.clear_session);
    let check = check_orchestrator_session(&orchestrator(Some(-1)), &ready, 7);
    assert_eq!(
        check.output.reason,
        "Ready to spawn 5 agent(s) for: B1, B2, B3, B4, B5. Active: 7/-1. Use 'bacchus claim <bead_id> <agent_id>' to claim."
    );
}

#[test]
fn session_says_what_its_check_needs() {
    assert_eq!(check_session(&agent(Some("B"))), SessionNeeds::Bead("B".to_string()));
    assert_eq!(check_session(&orchestrator(Some(3))), SessionNeeds::Workload);
    match check_session(&agent(None)) {
        SessionNeeds::Nothing(check) => assert_eq!(check.output.reason, "No bead ID in session"),
        other => panic!("unexpected: {:?}", other),
    }
    let odd = Session { mode: "watcher".to_string(), ..agent(None) };
    match check_session(&odd) {
        SessionNeeds::Nothing(check) => {
            assert_eq!(check.output.decision, "approve");
            assert_eq!(check.output.reason, "Unknown session mode: watcher");
        }
        other => panic!("unexpected: {:?}", other),
    }
    assert_eq!(check_without_session(false, false).output.reason, "No bacchus session active");
    assert_eq!(check_without_session(true, false).output.reason, "Cannot read session file");
    assert_eq!(check_without_session(true, true).output.reason, "Invalid session file");
    assert_eq!(check_without_session(true, true).output.decision, "approve");
}

#[test]
fn tasks_are_sized_by_their_lines() {
    assert_eq!(
        estimate_task_size(0, 0, 0),
        TaskEstimation {
            estimated_tokens: 0,
            file_count: 0,
            symbol_count: 0,
            exceeds_threshold: false,
            suggested_split_count: 1,
        }
    );
    assert_eq!(
        estimate_task_size(500, 9, 0),
        TaskEstimation {
            estimated_tokens: 0,
            file_count: 0,
            symbol_count: 0,
            exceeds_threshold: false,
            suggested_split_count: 1,
        }
    );
    assert_eq!(
        estimate_task_size(800, 2, 5),
        TaskEstimation {
            estimated_tokens: 8000,
            file_count: 2,
            symbol_count: 5,
            exceeds_threshold: false,
            suggested_split_count: 1,
        }
    );
    let over = estimate_task_size(801, 2, 5);
    assert_eq!(over.estimated_tokens, 8010);
    assert!(over.exceeds_threshold);
    assert_eq!(over.suggested_split_count, 2);
    assert_eq!(estimate_task_size(3000, 1, 1).suggested_split_count, 5);
    assert_eq!(estimate_task_size(i64::MAX, 1, 1).estimated_tokens, i32::MAX);
    assert_eq!(estimate_task_size(i64::MIN, 1, 1).estimated_tokens, i32::MIN);
    assert_eq!(estimate_task_size(i64::MAX, 1, 1).suggested_split_count, 357913);
}

#[test]
fn subtasks_are_numbered_after_their_parent() {
    let part = subtask("BEAD-1", 2, 4500, vec!["a.rs".to_string()], vec!["a.rs::f".to_string()]);
    assert_eq!(part.bead_id, "BEAD-1.2");
    assert_eq!(part.title.as_deref(), Some("Subtask 2 of BEAD-1"));
    assert_eq!(part.estimated_tokens, 4500);
    assert_eq!(part.files, vec!["a.rs".to_string()]);
    assert_eq!(part.symbols, vec!["a.rs::f".to_string()]);
}

#[test]
fn plans_and_changes_are_summed_up() {
    let plan = Workplan {
        modifies: Some(ModifiesSpec {
            files: None,
            symbols: Some(vec!["a".to_string(), "b".to_string()]),
            modules: None,
        }),
        creates: Some(CreatesSpec { symbols: Some(vec!["c".to_string()]) }),
    };
    assert_eq!(workplan_summary(&plan), "2 symbols to modify, 1 to create");
    assert_eq!(stale_workplan_summary(&plan), Some("Modifying a, b".to_string()));
    let empty = Workplan { modifies: None, creates: None };
    assert_eq!(workplan_summary(&empty), "0 symbols to modify, 0 to create");
    assert_eq!(stale_workplan_summary(&empty), None);
    let none_named = Workplan {
        modifies: Some(ModifiesSpec { files: None, symbols: Some(vec![]), modules: None }),
        creates: None,
    };
    assert_eq!(stale_workplan_summary(&none_named), Some("No symbols specified".to_string()));
    let diff = DiffSummary {
        files_changed: vec!["x".to_string(), "y".to_string(), "z".to_string()],
        lines_added: Some(1),
        lines_removed: None,
    };
    assert_eq!(footprint_summary(&diff), "3 files changed");
    let kept = preserved_context(Some(&plan), None);
    assert_eq!(kept.workplan_summary.as_deref(), Some("2 symbols to modify, 1 to create"));
    assert_eq!(kept.footprint_summary, None);
    let kept = preserved_context(None, Some(&diff));
    assert_eq!(kept.footprint_summary.as_deref(), Some("3 files changed"));
}

#[test]
fn overlaps_weigh_by_symbol_and_company() {
    assert!(!is_god_symbol(None));
    assert!(!is_god_symbol(Some(500)));
    assert!(is_god_symbol(Some(501)));
    let o = symbol_overlap("s", "B2", Some("agent-b".to_string()), Some(20), 1);
    assert_eq!(o.severity, "medium");
    assert!(!o.is_god_symbol);
    assert_eq!(o.symbol, "s");
    assert_eq!(o.other_bead_id, "B2");
    assert_eq!(o.other_agent_id.as_deref(), Some("agent-b"));
    assert_eq!(symbol_overlap("s", "B2", None, Some(20), 2).severity, "high");
    assert_eq!(symbol_overlap("s", "B2", None, Some(900), 2).severity, "low");
    assert_eq!(symbol_overlap("s", "B2", None, None, 0).severity, "medium");
    assert_eq!(
        god_symbol_warning("big", 900),
        "big is a god-symbol (900 lines) - overlap treated as low severity"
    );
}

#[test]
fn stale_tasks_report_their_minutes() {
    assert_eq!(ListStaleTasksInput { threshold_minutes: None }.threshold(), 15);
    assert_eq!(ListStaleTasksInput { threshold_minutes: Some(3) }.threshold(), 3);
    let info = stale_task_info("B".to_string(), Some("a".to_string()), 60_000, None, 240_000);
    assert_eq!(info.minutes_stale, 3);
    assert_eq!(info.bead_id, "B");
    assert_eq!(info.owner.as_deref(), Some("a"));
    assert_eq!(info.last_heartbeat, 60_000);
    assert_eq!(info.workplan_summary, None);
}

#[test]
fn commands_have_names() {
    assert_eq!(Commands::Next { agent_id: "a".to_string() }.name(), "next");
    assert_eq!(Commands::List.name(), "list");
    assert_eq!(Commands::SelfUpdate.name(), "self-update");
    assert_eq!(Commands::SessionCheck.name(), "session-check");
    assert!(Commands::Stale { minutes: DEFAULT_STALE_MINUTES, cleanup: false }.is_lifecycle());
    assert!(Commands::Release {
        bead_id: "b".to_string(),
        status: DEFAULT_RELEASE_STATUS.to_string()
    }
    .is_lifecycle());
    assert!(!Commands::Workflow.is_lifecycle());
    assert!(!Commands::Index { path: ".".to_string() }.is_lifecycle());
    assert!(WORKFLOW_DOC.contains("Bacchus Coordination Protocol"));
    assert!(WORKFLOW_DOC.contains("bacchus next"));
    assert!(WORKFLOW_DOC.contains("bacchus release"));
}
