//! The commands of the program.

use vstd::prelude::*;

verus! {

/// What the program was asked to do.
#[derive(Debug, PartialEq, Eq)]
pub struct Cli {
    pub command: Commands,
}

/// The commands.
#[derive(Debug, PartialEq, Eq)]
#[allow(inconsistent_fields)]
pub enum Commands {
    /// Claim the first bead that is ready.
    Next { agent_id: String },
    /// Claim a bead by its identifier; with `force`, whether or not it is
    /// ready.
    Claim { bead_id: String, agent_id: String, force: bool },
    /// Release a claimed bead as `done`, `blocked` or `failed`.
    Release { bead_id: String, status: String },
    /// Abort the merge that a release left in conflict.
    Abort { bead_id: String },
    /// Complete the merge once its conflicts are resolved.
    Resolve { bead_id: String },
    /// Find the claims older than so many minutes; with `cleanup`, reclaim
    /// them.
    Stale { minutes: i64, cleanup: bool },
    /// List the active claims.
    List,
    /// Search the symbol index.
    Symbols {
        pattern: Option<String>,
        kind: Option<String>,
        file: Option<String>,
        lang: Option<String>,
        limit: i32,
        search: Option<String>,
        fuzzy: bool,
    },
    /// Index a file or a directory.
    Index { path: String },
    /// Show claims and the state of the index.
    Status,
    /// Print how the commands are meant to be used.
    Workflow,
    /// Write the context of a bead, or of the project.
    Context { bead_id: Option<String> },
    /// Look for a newer version.
    CheckUpdate,
    /// Fetch and install the newest version.
    SelfUpdate,
    /// Start a session in the mode `agent` or `orchestrator`.
    SessionStart { mode: String, bead_id: Option<String>, max_concurrent: i32 },
    /// End the session.
    SessionStop,
    /// Show the session.
    SessionStatus,
    /// Say whether the agent of the session may stop.
    SessionCheck,
}

/// The status with which a bead is released where none is named.
pub const DEFAULT_RELEASE_STATUS: &'static str = "done";

/// The age in minutes from which a claim counts as stale where none is
/// named.
pub const DEFAULT_STALE_MINUTES: i64 = 15;

/// How many symbols a search shows where no number is named.
pub const DEFAULT_SYMBOL_LIMIT: i32 = 50;

/// The word that calls for a command.
pub open spec fn command_name(command: Commands) -> Seq<char> {
    match command {
        Commands::Next { .. } => "next"@,
        Commands::Claim { .. } => "claim"@,
        Commands::Release { .. } => "release"@,
        Commands::Abort { .. } => "abort"@,
        Commands::Resolve { .. } => "resolve"@,
        Commands::Stale { .. } => "stale"@,
        Commands::List => "list"@,
        Commands::Symbols { .. } => "symbols"@,
        Commands::Index { .. } => "index"@,
        Commands::Status => "status"@,
        Commands::Workflow => "workflow"@,
        Commands::Context { .. } => "context"@,
        Commands::CheckUpdate => "check-update"@,
        Commands::SelfUpdate => "self-update"@,
        Commands::SessionStart { .. } => "session-start"@,
        Commands::SessionStop => "session-stop"@,
        Commands::SessionStatus => "session-status"@,
        Commands::SessionCheck => "session-check"@,
    }
}

/// Whether a command works on claims and so needs the claim table, the
/// tracker and the repository.
pub open spec fn is_lifecycle(command: Commands) -> bool {
    command is Next || command is Claim || command is Release || command is Abort || command
        is Resolve || command is Stale || command is List
}

impl Commands {
    /// The word that calls for the command.
    pub fn name(&self) -> (name: &'static str)
        ensures
            name@ == command_name(*self),
    {
        match self {
            Commands::Next { .. } => "next",
            Commands::Claim { .. } => "claim",
            Commands::Release { .. } => "release",
            Commands::Abort { .. } => "abort",
            Commands::Resolve { .. } => "resolve",
            Commands::Stale { .. } => "stale",
            Commands::List => "list",
            Commands::Symbols { .. } => "symbols",
            Commands::Index { .. } => "index",
            Commands::Status => "status",
            Commands::Workflow => "workflow",
            Commands::Context { .. } => "context",
            Commands::CheckUpdate => "check-update",
            Commands::SelfUpdate => "self-update",
            Commands::SessionStart { .. } => "session-start",
            Commands::SessionStop => "session-stop",
            Commands::SessionStatus => "session-status",
            Commands::SessionCheck => "session-check",
        }
    }

    /// Whether the command works on claims.
    pub fn is_lifecycle(&self) -> (r: bool)
        ensures
            r == is_lifecycle(*self),
    {
        match self {
            Commands::Next { .. } => true,
            Commands::Claim { .. } => true,
            Commands::Release { .. } => true,
            Commands::Abort { .. } => true,
            Commands::Resolve { .. } => true,
            Commands::Stale { .. } => true,
            Commands::List => true,
            _ => false,
        }
    }
}

/// How the commands are meant to be used.
pub const WORKFLOW_DOC: &'static str =
    "
# Bacchus Coordination Protocol

## Agent Workflow

1. **Get Work**
   ```bash
   bacchus next <agent_id>
   ```
   - Finds ready bead from beads DB (open, no blockers)
   - Creates worktree at .bacchus/worktrees/{bead_id}/
   - Claims bead, updates status to in_progress

2. **Do Work**
   Work in the worktree. All changes are isolated on branch bacchus/{bead_id}.

3. **Release When Done**
   ```bash
   # Success - merge to main and cleanup
   bacchus release <bead_id> --status done

   # Blocked - keep worktree, release claim
   bacchus release <bead_id> --status blocked

   # Failed - discard worktree, reset bead
   bacchus release <bead_id> --status failed
   ```

4. **Handle Merge Conflicts**
   If release fails due to conflicts:
   ```bash
   # Option 1: Resolve manually then complete
   # ... fix conflicts, git add resolved files ...
   bacchus resolve <bead_id>

   # Option 2: Abort and keep working
   bacchus abort <bead_id>
   ```

## Stale Detection

Find abandoned claims:
```bash
bacchus stale --minutes 30

# Auto-cleanup stale claims
bacchus stale --minutes 30 --cleanup
```

## Code Search

```bash
bacchus index src/
bacchus symbols --pattern \"User*\" --kind class
```

## Status

```bash
bacchus status
```
";

} // verus!
