use cleaner::{
    plan_target, record_outcome, requires_confirmation, resolve, select_policy, select_targets,
    summarize, Args, CandidateEntry, Config, ExecutionPolicy, KindConfig, PatternSet, RunSummary,
    TargetAction,
};

fn entry(path: &str, depth: usize, is_dir: bool) -> CandidateEntry {
    CandidateEntry {
        path: path.to_string(),
        name: path.rsplit('/').next().unwrap_or("").to_string(),
        depth,
        is_dir,
    }
}

fn args(force: bool, dry_run: bool, max_depth: usize) -> Args {
    Args {
        path: "root".to_string(),
        dirs: None,
        exclude: None,
        kind: None,
        force,
        dry_run,
        interactive: false,
        ci: false,
        log: "info".to_string(),
        log_file: None,
        max_depth,
        config: None,
    }
}

/// Resolves, selects and "removes" (every removal succeeding, 4096 bytes each).
fn run(a: &Args, config: &Option<Config>, entries: &Vec<CandidateEntry>) -> (Vec<String>, RunSummary) {
    let cfg = resolve(a, config);
    let includes = PatternSet::compile(&cfg.include_patterns);
    let excludes = PatternSet::compile(&cfg.exclude_patterns);
    let targets = select_targets(entries, &includes, &excludes, cfg.max_depth);
    let policy = select_policy(&cfg);
    let outcomes = targets
        .iter()
        .map(|t| {
            let action = plan_target(policy, false);
            record_outcome(t.clone(), action, 4096, action == TargetAction::Delete)
        })
        .collect();
    (targets, summarize(&outcomes))
}

fn scenario_tree() -> Vec<CandidateEntry> {
    vec![
        entry("root", 0, true),
        entry("root/target", 1, true),
        entry("root/target/f.txt", 2, false),
        entry("root/node_modules", 1, true),
        entry("root/node_modules/f.txt", 2, false),
        entry("root/.idea", 1, true),
        entry("root/.idea/f.txt", 2, false),
        entry("root/src", 1, true),
        entry("root/src/main.x", 2, false),
        entry("root/README.md", 1, false),
    ]
}

#[test]
fn forced_default_kind_run_removes_three() {
    let a = args(true, false, 0);
    assert!(!requires_confirmation(&resolve(&a, &None)));
    let (targets, summary) = run(&a, &None, &scenario_tree());
    assert_eq!(targets, vec!["root/target", "root/node_modules", "root/.idea"]);
    assert!(!targets.iter().any(|t| t == "root/src" || t == "root/README.md"));
    assert_eq!(summary.total_deleted, 3);
    assert_eq!(summary.total_targets, 3);
}

#[test]
fn forced_run_with_depth_one_leaves_deep_target() {
    let a = args(true, false, 1);
    let entries = vec![
        entry("root", 0, true),
        entry("root/a", 1, true),
        entry("root/a/b", 2, true),
        entry("root/a/b/target", 3, true),
        entry("root/a/b/target/f.txt", 4, false),
    ];
    let (targets, summary) = run(&a, &None, &entries);
    assert!(targets.is_empty());
    assert_eq!(summary.total_deleted, 0);
}

#[test]
fn dry_run_then_live_run_select_same_targets() {
    let dry = args(false, true, 0);
    let cfg = resolve(&dry, &None);
    assert_eq!(select_policy(&cfg), ExecutionPolicy::DryRun);
    assert_eq!(plan_target(select_policy(&cfg), true), TargetAction::Measure);
    let (dry_targets, dry_summary) = run(&dry, &None, &scenario_tree());
    let (live_targets, _) = run(&args(true, false, 0), &None, &scenario_tree());
    assert_eq!(dry_targets, live_targets);
    assert_eq!(dry_summary.total_bytes, 3 * 4096);
}

#[test]
fn config_file_dirs_select_custom() {
    let config = Some(Config {
        kinds: Some(vec![(
            "all".to_string(),
            KindConfig {
                dirs: Some(vec!["custom".to_string()]),
            },
        )]),
        exclude: None,
    });
    let entries = vec![
        entry("root", 0, true),
        entry("root/custom", 1, true),
        entry("root/custom/should_delete.txt", 2, false),
        entry("root/target", 1, true),
    ];
    let (targets, _) = run(&args(true, false, 0), &config, &entries);
    assert_eq!(targets, vec!["root/custom"]);
}
