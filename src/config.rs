//! Resolving the effective configuration of a run from the command line, an optional
//! config file and the built-in per-kind defaults.

use vstd::prelude::*;

use crate::execute::{action_for, policy_for, ExecutionPolicy, TargetAction};
use crate::kind::{
    default_dirs_for_kind, kind_name, kind_patterns, lemma_kind_patterns_nonempty, ProjectKind,
};
use crate::pattern::valid_only;
use crate::select::{target_paths, CandidateEntry};
use crate::text::{list_items, split_list, str_eq, view_strings, view_strs};

verus! {

/// The command line of one invocation.
pub struct Args {
    /// The root directory to search beneath.
    pub path: String,
    /// A comma-separated list of directory-name patterns to clean.
    pub dirs: Option<String>,
    /// A comma-separated list of directory-name patterns to leave alone.
    pub exclude: Option<String>,
    /// The project kind whose defaults apply.
    pub kind: Option<ProjectKind>,
    /// Delete without asking.
    pub force: bool,
    /// Only report what would be deleted.
    pub dry_run: bool,
    /// Ask before each deletion.
    pub interactive: bool,
    /// Unattended mode: no prompts, a structured summary.
    pub ci: bool,
    /// The log level filter.
    pub log: String,
    /// A file to write the log to.
    pub log_file: Option<String>,
    /// The deepest level searched below the root; 0 means no limit.
    pub max_depth: usize,
    /// A config file with per-kind directory lists and exclusions.
    pub config: Option<String>,
}

/// The section of a config file for one kind.
pub struct KindConfig {
    pub dirs: Option<Vec<String>>,
}

/// The exclusion section of a config file.
pub struct ExcludeConfig {
    pub patterns: Option<Vec<String>>,
}

/// A config file's contents: sections keyed by kind name, and exclusions.
///
/// The keys of `kinds` come from the file's table, so each appears once; a lookup takes
/// the first section with the key.
pub struct Config {
    pub kinds: Option<Vec<(String, KindConfig)>>,
    pub exclude: Option<ExcludeConfig>,
}

/// The options of a run once every source has been taken into account.
pub struct EffectiveConfig {
    pub include_patterns: Vec<String>,
    pub exclude_patterns: Vec<String>,
    pub max_depth: usize,
    pub dry_run: bool,
    pub force: bool,
    pub interactive: bool,
    pub ci_mode: bool,
}

pub open spec fn opt_view(o: Option<String>) -> Option<Seq<char>> {
    match o {
        Some(s) => Some(s@),
        None => None,
    }
}

pub open spec fn opt_list_view(o: Option<Vec<String>>) -> Option<Seq<Seq<char>>> {
    match o {
        Some(v) => Some(view_strings(v@)),
        None => None,
    }
}

/// The kind in effect: the one given, else the aggregate.
pub open spec fn active_kind(k: Option<ProjectKind>) -> ProjectKind {
    match k {
        Some(k) => k,
        None => ProjectKind::All,
    }
}

/// The first section at or after position `i` whose key is `key`.
pub open spec fn find_section(
    sections: Seq<(String, KindConfig)>,
    key: Seq<char>,
    i: nat,
) -> Option<KindConfig>
    decreases sections.len() - i,
{
    if i >= sections.len() {
        None
    } else if sections[i as int].0@ == key {
        Some(sections[i as int].1)
    } else {
        find_section(sections, key, i + 1)
    }
}

/// The directory list that a config file gives for a kind, if it gives one.
pub open spec fn config_dirs(config: Option<Config>, kind: ProjectKind) -> Option<Seq<Seq<char>>> {
    match config {
        Some(c) => match c.kinds {
            Some(ks) => match find_section(ks@, kind_name(kind), 0) {
                Some(section) => opt_list_view(section.dirs),
                None => None,
            },
            None => None,
        },
        None => None,
    }
}

/// The exclusion list that a config file gives, if it gives one.
pub open spec fn config_exclude(config: Option<Config>) -> Option<Seq<Seq<char>>> {
    match config {
        Some(c) => match c.exclude {
            Some(e) => opt_list_view(e.patterns),
            None => None,
        },
        None => None,
    }
}

/// The include patterns: the command line's list if given, else the config file's list for
/// the kind if it has one, else the kind's defaults. The first source present wins whole.
pub open spec fn resolved_includes(
    cli: Option<Seq<char>>,
    from_file: Option<Seq<Seq<char>>>,
    kind: ProjectKind,
) -> Seq<Seq<char>> {
    match cli {
        Some(s) => list_items(s),
        None => match from_file {
            Some(d) => d,
            None => kind_patterns(kind),
        },
    }
}

/// The exclude patterns: the command line's list if given, else the config file's, else none.
pub open spec fn resolved_excludes(
    cli: Option<Seq<char>>,
    from_file: Option<Seq<Seq<char>>>,
) -> Seq<Seq<char>> {
    match cli {
        Some(s) => list_items(s),
        None => match from_file {
            Some(d) => d,
            None => seq![],
        },
    }
}

/// A copy of a list of strings.
fn copy_strings(v: &Vec<String>) -> (r: Vec<String>)
    ensures
        view_strings(r@) == view_strings(v@),
{
    let mut r: Vec<String> = Vec::new();
    let mut i: usize = 0;
    while i < v.len()
        invariant
            i <= v@.len(),
            r@.len() == i,
            forall|j: int| 0 <= j < i ==> r@[j]@ == v@[j]@,
        decreases v@.len() - i,
    {
        let s = v[i].clone();
        r.push(s);
        i = i + 1;
    }
    assert(view_strings(r@) =~= view_strings(v@));
    r
}

/// Owned copies of a list of string slices.
fn to_strings(v: &Vec<&'static str>) -> (r: Vec<String>)
    ensures
        view_strings(r@) == view_strs(v@),
{
    let mut r: Vec<String> = Vec::new();
    let mut i: usize = 0;
    while i < v.len()
        invariant
            i <= v@.len(),
            r@.len() == i,
            forall|j: int| 0 <= j < i ==> r@[j]@ == v@[j]@,
        decreases v@.len() - i,
    {
        let s = String::from_str(v[i]);
        r.push(s);
        i = i + 1;
    }
    assert(view_strings(r@) =~= view_strs(v@));
    r
}

/// The section of the config file keyed by `key`, if there is one.
fn lookup_section<'a>(sections: &'a Vec<(String, KindConfig)>, key: &str) -> (r: Option<
    &'a KindConfig,
>)
    ensures
        match find_section(sections@, key@, 0) {
            Some(s) => r == Some(&s),
            None => r is None,
        },
{
    let mut i: usize = 0;
    while i < sections.len()
        invariant
            i <= sections@.len(),
            find_section(sections@, key@, 0) == find_section(sections@, key@, i as nat),
        decreases sections@.len() - i,
    {
        if str_eq(sections[i].0.as_str(), key) {
            return Some(&sections[i].1);
        }
        i = i + 1;
    }
    None
}

/// The directory list that the config file gives for `kind`, copied, if it gives one.
fn dirs_from_config(config: &Option<Config>, kind: ProjectKind) -> (r: Option<Vec<String>>)
    ensures
        opt_list_view(r) == config_dirs(*config, kind),
{
    match config {
        Some(c) => match &c.kinds {
            Some(ks) => match lookup_section(ks, kind.as_str()) {
                Some(section) => match &section.dirs {
                    Some(d) => Some(copy_strings(d)),
                    None => None,
                },
                None => None,
            },
            None => None,
        },
        None => None,
    }
}

/// Determines which directory-name patterns to clean: the command line's `--dirs` list if
/// given, else the config file's list for the active kind, else the kind's defaults.
pub fn determine_dirs_to_clean(args: &Args, config: &Option<Config>) -> (r: Vec<String>)
    ensures
        view_strings(r@) == resolved_includes(
            opt_view(args.dirs),
            config_dirs(*config, active_kind(args.kind)),
            active_kind(args.kind),
        ),
{
    if let Some(dirs) = &args.dirs {
        return split_list(dirs.as_str());
    }
    let kind = match args.kind {
        Some(k) => k,
        None => ProjectKind::All,
    };
    if let Some(d) = dirs_from_config(config, kind) {
        return d;
    }
    to_strings(&default_dirs_for_kind(&kind))
}

/// Determines which directory-name patterns to leave alone: the command line's `--exclude`
/// list if given, else the config file's exclusions, else none.
pub fn determine_exclude(args: &Args, config: &Option<Config>) -> (r: Vec<String>)
    ensures
        view_strings(r@) == resolved_excludes(opt_view(args.exclude), config_exclude(*config)),
{
    if let Some(ex) = &args.exclude {
        return split_list(ex.as_str());
    }
    if let Some(c) = config {
        if let Some(e) = &c.exclude {
            if let Some(p) = &e.patterns {
                return copy_strings(p);
            }
        }
    }
    let r: Vec<String> = Vec::new();
    assert(view_strings(r@) =~= seq![]);
    r
}

/// Builds the effective configuration of a run.
pub fn resolve(args: &Args, config: &Option<Config>) -> (r: EffectiveConfig)
    ensures
        view_strings(r.include_patterns@) == resolved_includes(
            opt_view(args.dirs),
            config_dirs(*config, active_kind(args.kind)),
            active_kind(args.kind),
        ),
        view_strings(r.exclude_patterns@) == resolved_excludes(
            opt_view(args.exclude),
            config_exclude(*config),
        ),
        r.max_depth == args.max_depth,
        r.dry_run == args.dry_run,
        r.force == args.force,
        r.interactive == args.interactive,
        r.ci_mode == args.ci,
{
    EffectiveConfig {
        include_patterns: determine_dirs_to_clean(args, config),
        exclude_patterns: determine_exclude(args, config),
        max_depth: args.max_depth,
        dry_run: args.dry_run,
        force: args.force,
        interactive: args.interactive,
        ci_mode: args.ci,
    }
}

/// The paths that a command line selects among the entries of a walk, with the patterns
/// that glob refuses left out.
pub open spec fn run_targets(args: Args, config: Option<Config>, es: Seq<CandidateEntry>) -> Seq<
    Seq<char>,
> {
    let kind = active_kind(args.kind);
    target_paths(
        es,
        valid_only(resolved_includes(opt_view(args.dirs), config_dirs(config, kind), kind)),
        valid_only(resolved_excludes(opt_view(args.exclude), config_exclude(config))),
        args.max_depth as nat,
    )
}

/// A dry run removes nothing, whatever the other flags and answers; and a real run with the
/// same selection options on the same tree selects the very targets that the dry run
/// reported.
pub proof fn lemma_dry_run_then_real_run(
    dry: Args,
    live: Args,
    config: Option<Config>,
    es: Seq<CandidateEntry>,
    confirmed: bool,
)
    requires
        dry.dry_run,
        !live.dry_run,
        dry.dirs == live.dirs,
        dry.exclude == live.exclude,
        dry.kind == live.kind,
        dry.max_depth == live.max_depth,
    ensures
        policy_for(dry.dry_run, dry.interactive, dry.force, dry.ci) == ExecutionPolicy::DryRun,
        action_for(policy_for(dry.dry_run, dry.interactive, dry.force, dry.ci), confirmed)
            == TargetAction::Measure,
        run_targets(dry, config, es) == run_targets(live, config, es),
{
}

/// Where neither the command line nor the config file gives a directory list for the active
/// kind, the include list is that kind's defaults, which are never empty.
pub proof fn lemma_fallback_includes_nonempty(args: Args, config: Option<Config>)
    requires
        args.dirs is None,
        config_dirs(config, active_kind(args.kind)) is None,
    ensures
        resolved_includes(
            opt_view(args.dirs),
            config_dirs(config, active_kind(args.kind)),
            active_kind(args.kind),
        ) == kind_patterns(active_kind(args.kind)),
        kind_patterns(active_kind(args.kind)).len() > 0,
{
    lemma_kind_patterns_nonempty(active_kind(args.kind));
}

} // verus!
