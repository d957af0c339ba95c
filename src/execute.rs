//! Deciding how the targets are removed, and accounting for what was removed.

use vstd::prelude::*;

use crate::config::EffectiveConfig;
use crate::text::{lowercased, str_eq, to_lowercase, trim, trimmed};

verus! {

/// How the targets of a run are handled.
#[derive(Debug, Clone, Copy, PartialEq, Eq, Structural)]
pub enum ExecutionPolicy {
    /// Report each target and its size; remove nothing.
    DryRun,
    /// Ask about each target in turn, and remove the ones confirmed.
    Interactive,
    /// Remove every target, concurrently.
    ParallelForce,
}

/// What is done with one target.
#[derive(Debug, Clone, Copy, PartialEq, Eq, Structural)]
pub enum TargetAction {
    /// Measure it only.
    Measure,
    /// Measure it, then remove it.
    Delete,
    /// Leave it, as the operator asked.
    Skip,
}

/// The policy for a set of flags: a dry run comes first; then interactive mode, unless
/// forced or unattended; otherwise removal of everything.
pub open spec fn policy_for(dry_run: bool, interactive: bool, force: bool, ci: bool) -> ExecutionPolicy {
    if dry_run {
        ExecutionPolicy::DryRun
    } else if interactive && !force && !ci {
        ExecutionPolicy::Interactive
    } else {
        ExecutionPolicy::ParallelForce
    }
}

/// The policy of a run.
pub open spec fn run_policy(cfg: EffectiveConfig) -> ExecutionPolicy {
    policy_for(cfg.dry_run, cfg.interactive, cfg.force, cfg.ci_mode)
}

/// Chooses the policy of a run from its flags.
pub fn select_policy(cfg: &EffectiveConfig) -> (r: ExecutionPolicy)
    ensures
        r == run_policy(*cfg),
{
    if cfg.dry_run {
        ExecutionPolicy::DryRun
    } else if cfg.interactive && !cfg.force && !cfg.ci_mode {
        ExecutionPolicy::Interactive
    } else {
        ExecutionPolicy::ParallelForce
    }
}

/// Whether the operator must approve the whole run before anything is removed: only when
/// everything would be removed and neither `--force` nor unattended mode was given.
pub fn requires_confirmation(cfg: &EffectiveConfig) -> (r: bool)
    ensures
        r == (run_policy(*cfg) == ExecutionPolicy::ParallelForce && !cfg.force && !cfg.ci_mode),
{
    select_policy(cfg) == ExecutionPolicy::ParallelForce && !cfg.force && !cfg.ci_mode
}

/// Whether each target is put to the operator before it is handled.
pub fn prompts_per_target(policy: ExecutionPolicy) -> (r: bool)
    ensures
        r == (policy == ExecutionPolicy::Interactive),
{
    policy == ExecutionPolicy::Interactive
}

/// What a policy does with a target, given whether the operator confirmed it (which only
/// interactive mode asks).
pub open spec fn action_for(policy: ExecutionPolicy, confirmed: bool) -> TargetAction {
    match policy {
        ExecutionPolicy::DryRun => TargetAction::Measure,
        ExecutionPolicy::Interactive => if confirmed {
            TargetAction::Delete
        } else {
            TargetAction::Skip
        },
        ExecutionPolicy::ParallelForce => TargetAction::Delete,
    }
}

/// Decides what to do with one target.
pub fn plan_target(policy: ExecutionPolicy, confirmed: bool) -> (r: TargetAction)
    ensures
        r == action_for(policy, confirmed),
{
    match policy {
        ExecutionPolicy::DryRun => TargetAction::Measure,
        ExecutionPolicy::Interactive => if confirmed {
            TargetAction::Delete
        } else {
            TargetAction::Skip
        },
        ExecutionPolicy::ParallelForce => TargetAction::Delete,
    }
}

/// Whether a normalised answer is a yes.
pub open spec fn affirmative(word: Seq<char>) -> bool {
    word == "y"@ || word == "yes"@
}

/// Whether an answer, already trimmed and lower-cased, is "y" or "yes".
pub fn is_affirmative_word(word: &str) -> (r: bool)
    ensures
        r == affirmative(word@),
{
    str_eq(word, "y") || str_eq(word, "yes")
}

/// Whether an operator's answer is a yes: "y" or "yes" in any case, whitespace around it
/// ignored. Anything else, the empty answer included, is a no.
pub fn is_affirmative(reply: &str) -> (r: bool)
    ensures
        r == affirmative(lowercased(trimmed(reply@))),
{
    let word = to_lowercase(trim(reply));
    is_affirmative_word(word.as_str())
}

/// What became of one target.
pub struct DeletionOutcome {
    pub path: String,
    /// Whether it was removed, or in a dry run would be.
    pub succeeded: bool,
    /// Its size, measured before removal was attempted.
    pub bytes_freed: u64,
    /// Whether the operator declined its removal.
    pub skipped_by_user: bool,
}

/// Records the outcome of one target from the action taken, its size measured before the
/// action, and whether removal went through.
pub fn record_outcome(path: String, action: TargetAction, size: u64, removed: bool) -> (r:
    DeletionOutcome)
    ensures
        r.path@ == path@,
        action == TargetAction::Measure ==> r.succeeded && r.bytes_freed == size
            && !r.skipped_by_user,
        action == TargetAction::Delete ==> r.succeeded == removed && r.bytes_freed == size
            && !r.skipped_by_user,
        action == TargetAction::Skip ==> !r.succeeded && r.bytes_freed == 0 && r.skipped_by_user,
{
    match action {
        TargetAction::Measure => DeletionOutcome {
            path,
            succeeded: true,
            bytes_freed: size,
            skipped_by_user: false,
        },
        TargetAction::Delete => DeletionOutcome {
            path,
            succeeded: removed,
            bytes_freed: size,
            skipped_by_user: false,
        },
        TargetAction::Skip => DeletionOutcome {
            path,
            succeeded: false,
            bytes_freed: 0,
            skipped_by_user: true,
        },
    }
}

/// The totals of a run.
pub struct RunSummary {
    pub total_targets: usize,
    /// The sizes of all targets handled (not skipped), removed or not.
    pub total_bytes: u64,
    /// The sizes of the targets removed (or, in a dry run, that would be).
    pub freed_bytes: u64,
    pub total_deleted: usize,
    pub total_skipped: usize,
    pub total_failed: usize,
}

pub open spec fn is_deleted(o: DeletionOutcome) -> bool {
    o.succeeded && !o.skipped_by_user
}

pub open spec fn is_failed(o: DeletionOutcome) -> bool {
    !o.succeeded && !o.skipped_by_user
}

pub open spec fn deleted_count(os: Seq<DeletionOutcome>) -> nat
    decreases os.len(),
{
    if os.len() == 0 {
        0
    } else {
        deleted_count(os.drop_last()) + if is_deleted(os.last()) {
            1nat
        } else {
            0nat
        }
    }
}

pub open spec fn skipped_count(os: Seq<DeletionOutcome>) -> nat
    decreases os.len(),
{
    if os.len() == 0 {
        0
    } else {
        skipped_count(os.drop_last()) + if os.last().skipped_by_user {
            1nat
        } else {
            0nat
        }
    }
}

pub open spec fn failed_count(os: Seq<DeletionOutcome>) -> nat
    decreases os.len(),
{
    if os.len() == 0 {
        0
    } else {
        failed_count(os.drop_last()) + if is_failed(os.last()) {
            1nat
        } else {
            0nat
        }
    }
}

/// The sizes of the outcomes that were not skipped, added up.
pub open spec fn handled_bytes(os: Seq<DeletionOutcome>) -> nat
    decreases os.len(),
{
    if os.len() == 0 {
        0
    } else {
        handled_bytes(os.drop_last()) + if os.last().skipped_by_user {
            0nat
        } else {
            os.last().bytes_freed as nat
        }
    }
}

/// The sizes of the outcomes that were removed, added up.
pub open spec fn removed_bytes(os: Seq<DeletionOutcome>) -> nat
    decreases os.len(),
{
    if os.len() == 0 {
        0
    } else {
        removed_bytes(os.drop_last()) + if is_deleted(os.last()) {
            os.last().bytes_freed as nat
        } else {
            0nat
        }
    }
}

/// A byte count, held at `u64::MAX` where it would not fit.
pub open spec fn capped(n: nat) -> u64 {
    if n > u64::MAX {
        u64::MAX
    } else {
        n as u64
    }
}

proof fn lemma_counts_bounded(os: Seq<DeletionOutcome>)
    ensures
        deleted_count(os) + skipped_count(os) + failed_count(os) == os.len(),
    decreases os.len(),
{
    if os.len() > 0 {
        lemma_counts_bounded(os.drop_last());
    }
}

/// Adds the outcomes of a run up.
pub fn summarize(outcomes: &Vec<DeletionOutcome>) -> (r: RunSummary)
    ensures
        r.total_targets == outcomes@.len(),
        r.total_deleted == deleted_count(outcomes@),
        r.total_skipped == skipped_count(outcomes@),
        r.total_failed == failed_count(outcomes@),
        r.total_bytes == capped(handled_bytes(outcomes@)),
        r.freed_bytes == capped(removed_bytes(outcomes@)),
{
    let mut deleted: usize = 0;
    let mut skipped: usize = 0;
    let mut failed: usize = 0;
    let mut total_bytes: u64 = 0;
    let mut freed_bytes: u64 = 0;
    let mut i: usize = 0;
    while i < outcomes.len()
        invariant
            i <= outcomes@.len(),
            deleted == deleted_count(outcomes@.take(i as int)),
            skipped == skipped_count(outcomes@.take(i as int)),
            failed == failed_count(outcomes@.take(i as int)),
            total_bytes == capped(handled_bytes(outcomes@.take(i as int))),
            freed_bytes == capped(removed_bytes(outcomes@.take(i as int))),
        decreases outcomes@.len() - i,
    {
        let o = &outcomes[i];
        let ghost prefix = outcomes@.take(i as int + 1);
        proof {
            assert(prefix.drop_last() =~= outcomes@.take(i as int));
            assert(prefix.last() == outcomes@[i as int]);
            lemma_counts_bounded(prefix);
        }
        if o.succeeded && !o.skipped_by_user {
            deleted = deleted + 1;
            freed_bytes = freed_bytes.saturating_add(o.bytes_freed);
        }
        if o.skipped_by_user {
            skipped = skipped + 1;
        } else {
            total_bytes = total_bytes.saturating_add(o.bytes_freed);
        }
        if !o.succeeded && !o.skipped_by_user {
            failed = failed + 1;
        }
        i = i + 1;
    }
    assert(outcomes@.take(outcomes@.len() as int) =~= outcomes@);
    RunSummary {
        total_targets: outcomes.len(),
        total_bytes,
        freed_bytes,
        total_deleted: deleted,
        total_skipped: skipped,
        total_failed: failed,
    }
}

} // verus!
