//! Sizing tasks, telling how plans of agents overlap, and summing up what a
//! task leaves behind.

use crate::claims::{age_minutes, minutes_between};
use crate::text::{decimal_text, joined, push_decimal, push_joined};
use vstd::prelude::*;

verus! {

/// The age in minutes from which a task counts as stale where none is
/// named.
pub const DEFAULT_STALE_THRESHOLD_MINUTES: i64 = 15;

/// From how many lines on a symbol is a god symbol: one so large that
/// agents are bound to meet in it.
pub const GOD_SYMBOL_LINE_LIMIT: i64 = 500;

/// How many tokens a task may have before it is split.
pub const SPLIT_THRESHOLD_TOKENS: i32 = 8000;

/// How large a task is taken to be.
#[derive(Debug, Clone, Copy, PartialEq, Eq, Structural)]
pub struct TaskEstimation {
    pub estimated_tokens: i32,
    pub file_count: i32,
    pub symbol_count: i32,
    pub exceeds_threshold: bool,
    pub suggested_split_count: i32,
}

/// The tokens that `lines` lines are taken to hold: ten for each line, and
/// no more than an `i32` holds.
pub open spec fn tokens_of(lines: int) -> int {
    if lines * 10 > i32::MAX {
        i32::MAX as int
    } else if lines * 10 < i32::MIN {
        i32::MIN as int
    } else {
        lines * 10
    }
}

/// Into how many parts a task of `tokens` tokens is best split: one part
/// for a task within the threshold of 8000 tokens; else one part for each
/// 6000 tokens, and two at least.
pub open spec fn split_count(tokens: int) -> int {
    if tokens <= 8000 {
        1
    } else if tokens / 6000 < 2 {
        2
    } else {
        tokens / 6000
    }
}

/// The estimate for a task whose symbols lie in `file_count` files, are
/// `symbol_count` in number and have `total_lines` lines together. A task
/// without symbols is estimated at nothing.
pub open spec fn estimation_of(total_lines: int, file_count: int, symbol_count: int) -> TaskEstimation {
    if symbol_count == 0 {
        TaskEstimation {
            estimated_tokens: 0,
            file_count: 0,
            symbol_count: 0,
            exceeds_threshold: false,
            suggested_split_count: 1,
        }
    } else {
        TaskEstimation {
            estimated_tokens: tokens_of(total_lines) as i32,
            file_count: file_count as i32,
            symbol_count: symbol_count as i32,
            exceeds_threshold: tokens_of(total_lines) > 8000,
            suggested_split_count: split_count(tokens_of(total_lines)) as i32,
        }
    }
}

/// Estimates the size of a task from the symbols that belong to it: how
/// many files they lie in, how many they are, and how many lines they have
/// together.
pub fn estimate_task_size(total_lines: i64, file_count: i32, symbol_count: i32) -> (estimate:
    TaskEstimation)
    ensures
        estimate == estimation_of(total_lines as int, file_count as int, symbol_count as int),
{
    if symbol_count == 0 {
        return TaskEstimation {
            estimated_tokens: 0,
            file_count: 0,
            symbol_count: 0,
            exceeds_threshold: false,
            suggested_split_count: 1,
        };
    }
    let raw: i128 = total_lines as i128 * 10;
    let tokens: i32 = if raw > 2147483647 {
        2147483647
    } else if raw < -2147483648 {
        -2147483648
    } else {
        raw as i32
    };
    let exceeds_threshold = tokens > SPLIT_THRESHOLD_TOKENS;
    let suggested_split_count: i32 = if !exceeds_threshold {
        1
    } else if tokens / 6000 < 2 {
        2
    } else {
        tokens / 6000
    };
    TaskEstimation {
        estimated_tokens: tokens,
        file_count,
        symbol_count,
        exceeds_threshold,
        suggested_split_count,
    }
}

/// A part of a task that was split.
#[derive(Debug, PartialEq, Eq)]
pub struct SubtaskInfo {
    pub bead_id: String,
    pub title: Option<String>,
    pub estimated_tokens: i32,
    pub files: Vec<String>,
    pub symbols: Vec<String>,
}

/// The identifier of the part with the number `number` of the task
/// `parent`: the parent's identifier, a dot and the number.
pub open spec fn subtask_id(parent: Seq<char>, number: int) -> Seq<char> {
    parent + "."@ + decimal_text(number)
}

/// The title of the part with the number `number` of the task `parent`.
pub open spec fn subtask_title(parent: Seq<char>, number: int) -> Seq<char> {
    "Subtask "@ + decimal_text(number) + " of "@ + parent
}

/// The part with the number `number` of the task `parent`, for the files
/// and symbols given.
pub fn subtask(
    parent: &str,
    number: usize,
    estimated_tokens: i32,
    files: Vec<String>,
    symbols: Vec<String>,
) -> (part: SubtaskInfo)
    ensures
        part.bead_id@ == subtask_id(parent@, number as int),
        part.title.deep_view() == Some(subtask_title(parent@, number as int)),
        part.estimated_tokens == estimated_tokens,
        part.files == files,
        part.symbols == symbols,
{
    let mut bead_id = parent.to_string();
    bead_id.append(".");
    push_decimal(&mut bead_id, number as i128);
    let mut title = String::from_str("Subtask ");
    push_decimal(&mut title, number as i128);
    title.append(" of ");
    title.append(parent);
    SubtaskInfo { bead_id, title: Some(title), estimated_tokens, files, symbols }
}

/// What a plan says it will change.
#[derive(Debug, PartialEq, Eq)]
pub struct ModifiesSpec {
    pub files: Option<Vec<String>>,
    pub symbols: Option<Vec<String>>,
    pub modules: Option<Vec<String>>,
}

/// What a plan says it will create.
#[derive(Debug, PartialEq, Eq)]
pub struct CreatesSpec {
    pub symbols: Option<Vec<String>>,
}

/// The plan of an agent for a task.
#[derive(Debug, PartialEq, Eq)]
pub struct Workplan {
    pub modifies: Option<ModifiesSpec>,
    pub creates: Option<CreatesSpec>,
}

/// What was changed for a task.
#[derive(Debug, PartialEq, Eq)]
pub struct DiffSummary {
    pub files_changed: Vec<String>,
    pub lines_added: Option<i32>,
    pub lines_removed: Option<i32>,
}

/// What a released task leaves for the agent that takes it up next.
#[derive(Debug, PartialEq, Eq)]
pub struct PreservedContext {
    pub workplan_summary: Option<String>,
    pub footprint_summary: Option<String>,
}

/// How many symbols `plan` will change.
pub open spec fn modified_count(plan: Workplan) -> nat {
    match plan.modifies {
        Some(m) => match m.symbols {
            Some(s) => s@.len(),
            None => 0,
        },
        None => 0,
    }
}

/// How many symbols `plan` will create.
pub open spec fn created_count(plan: Workplan) -> nat {
    match plan.creates {
        Some(c) => match c.symbols {
            Some(s) => s@.len(),
            None => 0,
        },
        None => 0,
    }
}

/// Sums up a plan: how many symbols it will change and how many it will
/// create.
pub fn workplan_summary(plan: &Workplan) -> (text: String)
    ensures
        text@ == decimal_text(modified_count(*plan) as int) + " symbols to modify, "@
            + decimal_text(created_count(*plan) as int) + " to create"@,
{
    let modifies: usize = match &plan.modifies {
        Some(m) => match &m.symbols {
            Some(s) => s.len(),
            None => 0,
        },
        None => 0,
    };
    let creates: usize = match &plan.creates {
        Some(c) => match &c.symbols {
            Some(s) => s.len(),
            None => 0,
        },
        None => 0,
    };
    let mut text = String::new();
    push_decimal(&mut text, modifies as i128);
    text.append(" symbols to modify, ");
    push_decimal(&mut text, creates as i128);
    text.append(" to create");
    assert(text@ =~= decimal_text(modifies as int) + " symbols to modify, "@ + decimal_text(
        creates as int,
    ) + " to create"@);
    text
}

/// Sums up what was changed: how many files.
pub fn footprint_summary(diff: &DiffSummary) -> (text: String)
    ensures
        text@ == decimal_text(diff.files_changed@.len() as int) + " files changed"@,
{
    let mut text = String::new();
    push_decimal(&mut text, diff.files_changed.len() as i128);
    text.append(" files changed");
    assert(text@ =~= decimal_text(diff.files_changed@.len() as int) + " files changed"@);
    text
}

/// What a released task leaves behind, given its plan and its changes
/// where they are known.
pub fn preserved_context(plan: Option<&Workplan>, diff: Option<&DiffSummary>) -> (context:
    PreservedContext)
    ensures
        context.workplan_summary is Some == plan is Some,
        context.footprint_summary is Some == diff is Some,
        plan matches Some(p) ==> context.workplan_summary->0@ == decimal_text(
            modified_count(*p) as int,
        ) + " symbols to modify, "@ + decimal_text(created_count(*p) as int) + " to create"@,
        diff matches Some(d) ==> context.footprint_summary->0@ == decimal_text(
            d.files_changed@.len() as int,
        ) + " files changed"@,
{
    PreservedContext {
        workplan_summary: match plan {
            Some(p) => Some(workplan_summary(p)),
            None => None,
        },
        footprint_summary: match diff {
            Some(d) => Some(footprint_summary(d)),
            None => None,
        },
    }
}

/// That two agents plan to change one symbol.
#[derive(Debug, PartialEq, Eq)]
pub struct SymbolOverlap {
    pub symbol: String,
    pub other_bead_id: String,
    pub other_agent_id: Option<String>,
    pub severity: String,
    pub is_god_symbol: bool,
}

/// How grave it is that `others` other tasks plan to change a symbol: of
/// little weight in a god symbol, grave where more than one other task is
/// involved, else of medium weight.
pub open spec fn severity_of(is_god_symbol: bool, others: int) -> Seq<char> {
    if is_god_symbol {
        "low"@
    } else if others > 1 {
        "high"@
    } else {
        "medium"@
    }
}

/// Whether a symbol of `line_count` lines is a god symbol; a symbol of
/// unknown size is none.
pub fn is_god_symbol(line_count: Option<i64>) -> (r: bool)
    ensures
        r == (line_count matches Some(n) && n > 500),
{
    match line_count {
        Some(n) => n > GOD_SYMBOL_LINE_LIMIT,
        None => false,
    }
}

/// The overlap of a plan with the task `other_bead_id` in `symbol`, which
/// `others` other tasks plan to change.
pub fn symbol_overlap(
    symbol: &str,
    other_bead_id: &str,
    other_agent_id: Option<String>,
    line_count: Option<i64>,
    others: usize,
) -> (overlap: SymbolOverlap)
    ensures
        overlap.symbol@ == symbol@,
        overlap.other_bead_id@ == other_bead_id@,
        overlap.other_agent_id == other_agent_id,
        overlap.is_god_symbol == (line_count matches Some(n) && n > 500),
        overlap.severity@ == severity_of(overlap.is_god_symbol, others as int),
{
    let god = is_god_symbol(line_count);
    let severity = if god {
        "low"
    } else if others > 1 {
        "high"
    } else {
        "medium"
    };
    SymbolOverlap {
        symbol: symbol.to_string(),
        other_bead_id: other_bead_id.to_string(),
        other_agent_id,
        severity: severity.to_string(),
        is_god_symbol: god,
    }
}

/// The warning for an overlap in a god symbol of `line_count` lines.
pub fn god_symbol_warning(symbol: &str, line_count: i64) -> (text: String)
    ensures
        text@ == symbol@ + " is a god-symbol ("@ + decimal_text(line_count as int)
            + " lines) - overlap treated as low severity"@,
{
    let mut text = symbol.to_string();
    text.append(" is a god-symbol (");
    push_decimal(&mut text, line_count as i128);
    text.append(" lines) - overlap treated as low severity");
    text
}

/// Which tasks count as stale.
#[derive(Debug, PartialEq, Eq)]
pub struct ListStaleTasksInput {
    pub threshold_minutes: Option<i64>,
}

/// A task whose agent has not been heard of for too long.
#[derive(Debug, PartialEq, Eq)]
pub struct StaleTaskInfo {
    pub bead_id: String,
    pub owner: Option<String>,
    pub last_heartbeat: i64,
    pub minutes_stale: i64,
    pub workplan_summary: Option<String>,
}

impl ListStaleTasksInput {
    /// The age in minutes from which a task counts as stale: the threshold
    /// that is named, else 15.
    pub fn threshold(&self) -> (minutes: i64)
        ensures
            minutes == match self.threshold_minutes {
                Some(m) => m,
                None => 15,
            },
    {
        match self.threshold_minutes {
            Some(m) => m,
            None => DEFAULT_STALE_THRESHOLD_MINUTES,
        }
    }
}

/// What a stale task is said to be doing: the symbols that its plan will
/// change.
pub open spec fn doing_text(symbols: Seq<Seq<char>>) -> Seq<char> {
    if symbols.len() == 0 {
        "No symbols specified"@
    } else {
        "Modifying "@ + joined(symbols, ", "@)
    }
}

/// Sums up the plan of a stale task, if the plan names symbols to change.
pub fn stale_workplan_summary(plan: &Workplan) -> (text: Option<String>)
    ensures
        match plan.modifies {
            Some(m) => match m.symbols {
                Some(s) => text.deep_view() == Some(doing_text(s.deep_view())),
                None => text is None,
            },
            None => text is None,
        },
{
    match &plan.modifies {
        Some(m) => match &m.symbols {
            Some(s) => {
                if s.len() == 0 {
                    assert(s.deep_view().len() == 0);
                    Some(String::from_str("No symbols specified"))
                } else {
                    assert(s.deep_view().len() == s.len());
                    let mut text = String::from_str("Modifying ");
                    push_joined(&mut text, s, ", ");
                    Some(text)
                }
            },
            None => None,
        },
        None => None,
    }
}

/// What is reported of a task whose agent was last heard of at
/// `last_heartbeat`, at `now` (both in epoch milliseconds).
pub fn stale_task_info(
    bead_id: String,
    owner: Option<String>,
    last_heartbeat: i64,
    workplan_summary: Option<String>,
    now: i64,
) -> (info: StaleTaskInfo)
    ensures
        info.bead_id == bead_id,
        info.owner == owner,
        info.last_heartbeat == last_heartbeat,
        info.minutes_stale == age_minutes(last_heartbeat as int, now as int),
        info.workplan_summary == workplan_summary,
{
    StaleTaskInfo {
        bead_id,
        owner,
        last_heartbeat,
        minutes_stale: minutes_between(last_heartbeat, now),
        workplan_summary,
    }
}

} // verus!
