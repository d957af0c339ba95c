//! Locating and removing build, cache and temporary directories beneath a root.
//!
//! The library resolves which directory-name patterns apply (command line, then config file,
//! then per-kind defaults), compiles them, chooses the target directories among the entries
//! of a walk, decides how each target is handled, and adds up the outcomes.

pub mod config;
pub mod execute;
pub mod kind;
pub mod pattern;
pub mod select;
pub mod text;

pub use config::{
    determine_dirs_to_clean, determine_exclude, resolve, Args, Config, EffectiveConfig,
    ExcludeConfig, KindConfig,
};
pub use execute::{
    is_affirmative, is_affirmative_word, plan_target, prompts_per_target, record_outcome,
    requires_confirmation, select_policy, summarize, DeletionOutcome, ExecutionPolicy,
    RunSummary, TargetAction,
};
pub use kind::{default_dirs_for_kind, ProjectKind};
pub use pattern::PatternSet;
pub use select::{entry_matches, select_targets, walk_depth_limit, CandidateEntry};
pub use text::split_list;
