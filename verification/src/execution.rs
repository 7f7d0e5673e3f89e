use vstd::prelude::*;

use crate::discovery::{
    ScriptsDirectoryEntry, ScriptsDirectoryEntryError, ScriptsDirectoryEntryKind,
    SpecScriptsDirectoryEntry, SpecScriptsDirectoryEntryError, scan_step_view,
};
use crate::mode::ColorMode;

verus! {

/// The name of the environment variable that carries the mode's textual form
/// into each launched script.
pub fn env_var_name() -> (r: String)
    ensures
        r@ == "DMD_COLOR_MODE"@,
{
    String::from_str("DMD_COLOR_MODE")
}

/// The value placed in the environment of each launched script: the mode's
/// lowercase name.
pub fn env_var_value(mode: ColorMode) -> (r: String)
    ensures
        r@ == mode.text_spec(),
{
    mode.text()
}

/// What the operating system reported for one launch attempt.
#[derive(Copy, Clone, PartialEq, Eq, Structural, Debug)]
pub enum ProcessOutcome {
    /// The child process could not be spawned at all.
    SpawnFailed,
    /// The child was spawned but waiting for it to exit failed.
    WaitFailed,
    /// The child exited; `success` says whether its exit status was zero.
    Exited { success: bool },
}

/// Why a script counts as failed.
#[derive(Copy, Clone, PartialEq, Eq, Structural, Debug)]
pub enum FailureReason {
    SpawnError,
    WaitError,
    NonZeroExit,
}

/// The per-script outcome as reported to the user.
#[derive(Copy, Clone, PartialEq, Eq, Structural, Debug)]
pub enum ExecutionResult {
    Succeeded,
    Failed(FailureReason),
}

/// How one process outcome is reported: only a zero exit status counts as
/// success, and each kind of mishap keeps its own failure reason.
pub open spec fn result_of(outcome: ProcessOutcome) -> ExecutionResult {
    match outcome {
        ProcessOutcome::SpawnFailed => ExecutionResult::Failed(FailureReason::SpawnError),
        ProcessOutcome::WaitFailed => ExecutionResult::Failed(FailureReason::WaitError),
        ProcessOutcome::Exited { success } => if success {
            ExecutionResult::Succeeded
        } else {
            ExecutionResult::Failed(FailureReason::NonZeroExit)
        },
    }
}

/// One line of the runner's report: which script, and how it went.
#[derive(Debug, PartialEq, Eq)]
pub struct ScriptReport {
    /// The resolved path the script was launched from.
    pub script: String,
    pub result: ExecutionResult,
}

/// The mathematical value of a [`ScriptReport`].
pub struct SpecScriptReport {
    pub script: Seq<char>,
    pub result: ExecutionResult,
}

impl View for ScriptReport {
    type V = SpecScriptReport;

    open spec fn view(&self) -> SpecScriptReport {
        SpecScriptReport { script: self.script@, result: self.result }
    }
}

/// The report for one script, given what the operating system did with it.
pub open spec fn report_of(script: SpecScriptsDirectoryEntry, outcome: ProcessOutcome) -> SpecScriptReport {
    SpecScriptReport { script: script.target, result: result_of(outcome) }
}

impl ScriptReport {
    /// Build the report line for one script.
    pub fn for_outcome(script: &ScriptsDirectoryEntry, outcome: ProcessOutcome) -> (r: ScriptReport)
        ensures
            r@ == report_of(script@, outcome),
    {
        let result = match outcome {
            ProcessOutcome::SpawnFailed => ExecutionResult::Failed(FailureReason::SpawnError),
            ProcessOutcome::WaitFailed => ExecutionResult::Failed(FailureReason::WaitError),
            ProcessOutcome::Exited { success } => if success {
                ExecutionResult::Succeeded
            } else {
                ExecutionResult::Failed(FailureReason::NonZeroExit)
            },
        };
        ScriptReport { script: script.target.clone(), result }
    }
}

/// One informational line the runner emits while walking the scan, before
/// any outcome is known. All of these are verbose-only.
#[derive(Debug, PartialEq, Eq)]
pub enum RunNotice {
    /// A per-entry scan failure, reported and then skipped.
    ScanError(ScriptsDirectoryEntryError),
    /// A directory (or other non-file) entry, skipped.
    SkippedDirectory { target: String },
    /// A file without execute bits, skipped.
    SkippedNonExecutableFile { target: String },
    /// A script about to be launched.
    Launching { target: String },
}

/// The mathematical value of a [`RunNotice`].
pub enum SpecRunNotice {
    ScanError(SpecScriptsDirectoryEntryError),
    SkippedDirectory { target: Seq<char> },
    SkippedNonExecutableFile { target: Seq<char> },
    Launching { target: Seq<char> },
}

impl View for RunNotice {
    type V = SpecRunNotice;

    open spec fn view(&self) -> SpecRunNotice {
        match self {
            RunNotice::ScanError(error) => SpecRunNotice::ScanError(error@),
            RunNotice::SkippedDirectory { target } => SpecRunNotice::SkippedDirectory {
                target: target@,
            },
            RunNotice::SkippedNonExecutableFile { target } => SpecRunNotice::SkippedNonExecutableFile {
                target: target@,
            },
            RunNotice::Launching { target } => SpecRunNotice::Launching { target: target@ },
        }
    }
}

/// The notice the runner's walk emits for one scan step.
pub open spec fn notice_for(
    step: Result<SpecScriptsDirectoryEntry, SpecScriptsDirectoryEntryError>,
) -> SpecRunNotice {
    match step {
        Err(error) => SpecRunNotice::ScanError(error),
        Ok(entry) => match entry.kind {
            ScriptsDirectoryEntryKind::Script => SpecRunNotice::Launching { target: entry.target },
            ScriptsDirectoryEntryKind::Directory => SpecRunNotice::SkippedDirectory {
                target: entry.target,
            },
            ScriptsDirectoryEntryKind::NonExecutableFile => SpecRunNotice::SkippedNonExecutableFile {
                target: entry.target,
            },
        },
    }
}

/// The informational lines a run prints while walking the scan: nothing at
/// all unless verbose, and one notice per scan step — naming the resolved
/// target and the reason — when verbose.
pub fn run_notices(
    steps: &Vec<Result<ScriptsDirectoryEntry, ScriptsDirectoryEntryError>>,
    verbose: bool,
) -> (r: Vec<RunNotice>)
    ensures
        !verbose ==> r@.len() == 0,
        verbose ==> r@.len() == steps@.len() && forall|i: int|
            0 <= i < steps@.len() ==> (#[trigger] r@[i])@ == notice_for(
                scan_step_view(steps@[i]),
            ),
{
    let mut notices: Vec<RunNotice> = Vec::new();
    if !verbose {
        return notices;
    }
    let mut idx: usize = 0;
    while idx < steps.len()
        invariant
            idx <= steps@.len(),
            notices@.len() == idx,
            forall|i: int|
                0 <= i < idx ==> (#[trigger] notices@[i])@ == notice_for(
                    scan_step_view(steps@[i]),
                ),
        decreases steps@.len() - idx,
    {
        let notice = match &steps[idx] {
            Err(error) => RunNotice::ScanError(error.clone()),
            Ok(entry) => match entry.kind {
                ScriptsDirectoryEntryKind::Script => RunNotice::Launching {
                    target: entry.target.clone(),
                },
                ScriptsDirectoryEntryKind::Directory => RunNotice::SkippedDirectory {
                    target: entry.target.clone(),
                },
                ScriptsDirectoryEntryKind::NonExecutableFile => RunNotice::SkippedNonExecutableFile {
                    target: entry.target.clone(),
                },
            },
        };
        notices.push(notice);
        idx = idx + 1;
    }
    notices
}

/// The runnable scripts of a scan, in enumeration order: entries classified
/// as scripts. Skipped kinds and failed entries contribute nothing.
pub open spec fn runnable_of(
    steps: Seq<Result<SpecScriptsDirectoryEntry, SpecScriptsDirectoryEntryError>>,
) -> Seq<SpecScriptsDirectoryEntry>
    decreases steps.len(),
{
    if steps.len() == 0 {
        Seq::empty()
    } else {
        let rest = runnable_of(steps.drop_last());
        match steps.last() {
            Ok(entry) => if entry.kind == ScriptsDirectoryEntryKind::Script {
                rest.push(entry)
            } else {
                rest
            },
            Err(_) => rest,
        }
    }
}

/// Select which entries of a scan will be launched, preserving the scan's
/// enumeration order. A per-entry scan failure only excludes that entry; it
/// does not abort the run.
pub fn select_runnable(
    steps: &Vec<Result<ScriptsDirectoryEntry, ScriptsDirectoryEntryError>>,
) -> (r: Vec<ScriptsDirectoryEntry>)
    ensures
        r@.map_values(|e: ScriptsDirectoryEntry| e@) == runnable_of(
            steps@.map_values(|s: Result<ScriptsDirectoryEntry, ScriptsDirectoryEntryError>| scan_step_view(s)),
        ),
{
    let ghost all = steps@.map_values(
        |s: Result<ScriptsDirectoryEntry, ScriptsDirectoryEntryError>| scan_step_view(s),
    );
    let mut selected: Vec<ScriptsDirectoryEntry> = Vec::new();
    let mut idx: usize = 0;
    while idx < steps.len()
        invariant
            idx <= steps@.len(),
            all == steps@.map_values(
                |s: Result<ScriptsDirectoryEntry, ScriptsDirectoryEntryError>| scan_step_view(s),
            ),
            selected@.map_values(|e: ScriptsDirectoryEntry| e@) == runnable_of(
                all.take(idx as int),
            ),
        decreases steps@.len() - idx,
    {
        let ghost prefix = all.take(idx as int);
        let ghost next_prefix = all.take(idx + 1);
        assert(next_prefix.drop_last() =~= prefix);
        assert(next_prefix.last() == all[idx as int]);
        match &steps[idx] {
            Ok(entry) => {
                if matches!(entry.kind, ScriptsDirectoryEntryKind::Script) {
                    selected.push(entry.clone());
                }
            },
            Err(_) => {},
        }
        idx = idx + 1;
    }
    assert(all.take(steps@.len() as int) =~= all);
    selected
}

/// The reports of a sequential run over the first `n` scripts: each script is
/// launched, waited on, and reported before the next one starts, so reports
/// come in launch order.
pub open spec fn sequential_reports(
    scripts: Seq<SpecScriptsDirectoryEntry>,
    outcomes: Seq<ProcessOutcome>,
    n: int,
) -> Seq<SpecScriptReport>
    decreases n,
{
    if n <= 0 {
        Seq::empty()
    } else {
        sequential_reports(scripts, outcomes, n - 1).push(
            report_of(scripts[n - 1], outcomes[n - 1]),
        )
    }
}

/// The reports that one phase of a parallel run emits over the first `n`
/// scripts. With `spawn_failures` true this is the launch phase, which
/// reports each script whose spawn failed as soon as it fails; with it false
/// this is the wait phase, which reports every spawned script in launch
/// order.
pub open spec fn phase_reports(
    scripts: Seq<SpecScriptsDirectoryEntry>,
    outcomes: Seq<ProcessOutcome>,
    spawn_failures: bool,
    n: int,
) -> Seq<SpecScriptReport>
    decreases n,
{
    if n <= 0 {
        Seq::empty()
    } else {
        let rest = phase_reports(scripts, outcomes, spawn_failures, n - 1);
        if (outcomes[n - 1] is SpawnFailed) == spawn_failures {
            rest.push(report_of(scripts[n - 1], outcomes[n - 1]))
        } else {
            rest
        }
    }
}

/// The reports of a parallel run: every script is launched before any is
/// waited on, so spawn failures are reported during the launch phase and all
/// other outcomes afterwards, each phase in launch order.
pub open spec fn parallel_reports(
    scripts: Seq<SpecScriptsDirectoryEntry>,
    outcomes: Seq<ProcessOutcome>,
) -> Seq<SpecScriptReport> {
    phase_reports(scripts, outcomes, true, scripts.len() as int) + phase_reports(
        scripts,
        outcomes,
        false,
        scripts.len() as int,
    )
}

/// Report a whole sequential run, one report per script in launch order.
pub fn run_reports_sequential(
    scripts: &Vec<ScriptsDirectoryEntry>,
    outcomes: &Vec<ProcessOutcome>,
) -> (r: Vec<ScriptReport>)
    requires
        scripts@.len() == outcomes@.len(),
    ensures
        r@.map_values(|rep: ScriptReport| rep@) == sequential_reports(
            scripts@.map_values(|e: ScriptsDirectoryEntry| e@),
            outcomes@,
            scripts@.len() as int,
        ),
{
    let mut reports: Vec<ScriptReport> = Vec::new();
    let mut idx: usize = 0;
    while idx < scripts.len()
        invariant
            scripts@.len() == outcomes@.len(),
            idx <= scripts@.len(),
            reports@.map_values(|rep: ScriptReport| rep@) == sequential_reports(
                scripts@.map_values(|e: ScriptsDirectoryEntry| e@),
                outcomes@,
                idx as int,
            ),
        decreases scripts@.len() - idx,
    {
        reports.push(ScriptReport::for_outcome(&scripts[idx], outcomes[idx]));
        idx = idx + 1;
    }
    reports
}

/// Report a whole parallel run: the launch phase's spawn-failure reports
/// first, then the wait phase's reports, each phase in launch order.
pub fn run_reports_parallel(
    scripts: &Vec<ScriptsDirectoryEntry>,
    outcomes: &Vec<ProcessOutcome>,
) -> (r: Vec<ScriptReport>)
    requires
        scripts@.len() == outcomes@.len(),
    ensures
        r@.map_values(|rep: ScriptReport| rep@) == parallel_reports(
            scripts@.map_values(|e: ScriptsDirectoryEntry| e@),
            outcomes@,
        ),
{
    let ghost entries = scripts@.map_values(|e: ScriptsDirectoryEntry| e@);
    let mut reports: Vec<ScriptReport> = Vec::new();
    let mut idx: usize = 0;
    while idx < scripts.len()
        invariant
            scripts@.len() == outcomes@.len(),
            idx <= scripts@.len(),
            entries == scripts@.map_values(|e: ScriptsDirectoryEntry| e@),
            reports@.map_values(|rep: ScriptReport| rep@) == phase_reports(
                entries,
                outcomes@,
                true,
                idx as int,
            ),
        decreases scripts@.len() - idx,
    {
        if matches!(outcomes[idx], ProcessOutcome::SpawnFailed) {
            reports.push(ScriptReport::for_outcome(&scripts[idx], outcomes[idx]));
        }
        idx = idx + 1;
    }
    let mut wait_idx: usize = 0;
    while wait_idx < scripts.len()
        invariant
            scripts@.len() == outcomes@.len(),
            wait_idx <= scripts@.len(),
            entries == scripts@.map_values(|e: ScriptsDirectoryEntry| e@),
            reports@.map_values(|rep: ScriptReport| rep@) == phase_reports(
                entries,
                outcomes@,
                true,
                scripts@.len() as int,
            ) + phase_reports(entries, outcomes@, false, wait_idx as int),
        decreases scripts@.len() - wait_idx,
    {
        let ghost launch_phase = phase_reports(entries, outcomes@, true, scripts@.len() as int);
        let ghost pre = reports@.map_values(|rep: ScriptReport| rep@);
        if !matches!(outcomes[wait_idx], ProcessOutcome::SpawnFailed) {
            let report = ScriptReport::for_outcome(&scripts[wait_idx], outcomes[wait_idx]);
            reports.push(report);
            assert(reports@.map_values(|rep: ScriptReport| rep@) =~= pre.push(report@));
            assert(reports@.map_values(|rep: ScriptReport| rep@) =~= launch_phase
                + phase_reports(entries, outcomes@, false, wait_idx + 1));
        } else {
            assert(reports@.map_values(|rep: ScriptReport| rep@) =~= launch_phase
                + phase_reports(entries, outcomes@, false, wait_idx + 1));
        }
        wait_idx = wait_idx + 1;
    }
    reports
}

/// A sequential run reports exactly one result per script, in launch order:
/// the report at position `i` is the report for the script launched `i`-th.
pub proof fn lemma_sequential_reports_in_launch_order(
    scripts: Seq<SpecScriptsDirectoryEntry>,
    outcomes: Seq<ProcessOutcome>,
    n: int,
)
    requires
        0 <= n <= scripts.len(),
        scripts.len() == outcomes.len(),
    ensures
        sequential_reports(scripts, outcomes, n).len() == n,
        forall|i: int|
            0 <= i < n ==> sequential_reports(scripts, outcomes, n)[i] == report_of(
                scripts[i],
                outcomes[i],
            ),
    decreases n,
{
    if n > 0 {
        lemma_sequential_reports_in_launch_order(scripts, outcomes, n - 1);
    }
}

/// For one listing and one set of per-script outcomes, the sequential and the
/// parallel strategy report exactly the same multiset of per-script results:
/// only the order of the report lines differs.
pub proof fn lemma_sequential_parallel_same_outcomes(
    scripts: Seq<SpecScriptsDirectoryEntry>,
    outcomes: Seq<ProcessOutcome>,
)
    requires
        scripts.len() == outcomes.len(),
    ensures
        sequential_reports(scripts, outcomes, scripts.len() as int).to_multiset()
            == parallel_reports(scripts, outcomes).to_multiset(),
{
    lemma_phases_partition_sequential(scripts, outcomes, scripts.len() as int);
    vstd::seq_lib::lemma_multiset_commutative(
        phase_reports(scripts, outcomes, true, scripts.len() as int),
        phase_reports(scripts, outcomes, false, scripts.len() as int),
    );
}

/// Over any prefix, the sequential reports are the two parallel phases'
/// reports merged: each report lands in exactly one phase.
proof fn lemma_phases_partition_sequential(
    scripts: Seq<SpecScriptsDirectoryEntry>,
    outcomes: Seq<ProcessOutcome>,
    n: int,
)
    requires
        n <= scripts.len(),
        scripts.len() == outcomes.len(),
    ensures
        sequential_reports(scripts, outcomes, n).to_multiset() == phase_reports(
            scripts,
            outcomes,
            true,
            n,
        ).to_multiset().add(phase_reports(scripts, outcomes, false, n).to_multiset()),
    decreases n,
{
    broadcast use vstd::seq_lib::group_to_multiset_ensures;

    if n <= 0 {
        assert(sequential_reports(scripts, outcomes, n).to_multiset() =~= phase_reports(
            scripts,
            outcomes,
            true,
            n,
        ).to_multiset().add(phase_reports(scripts, outcomes, false, n).to_multiset()));
    } else {
        lemma_phases_partition_sequential(scripts, outcomes, n - 1);
        let report = report_of(scripts[n - 1], outcomes[n - 1]);
        assert(sequential_reports(scripts, outcomes, n).to_multiset() =~= phase_reports(
            scripts,
            outcomes,
            true,
            n,
        ).to_multiset().add(phase_reports(scripts, outcomes, false, n).to_multiset()));
    }
}

/// Classification and launch order depend on the listing alone: two runs over
/// the same directory listing select the same scripts in the same order, and
/// the same outcomes then yield the same reports.
pub proof fn lemma_run_idempotent(
    steps: Seq<Result<SpecScriptsDirectoryEntry, SpecScriptsDirectoryEntryError>>,
    first: Seq<SpecScriptsDirectoryEntry>,
    second: Seq<SpecScriptsDirectoryEntry>,
    outcomes: Seq<ProcessOutcome>,
)
    requires
        first == runnable_of(steps),
        second == runnable_of(steps),
    ensures
        first == second,
        sequential_reports(first, outcomes, first.len() as int) == sequential_reports(
            second,
            outcomes,
            second.len() as int,
        ),
{
}

} // verus!
