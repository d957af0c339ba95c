use cleaner::{
    determine_dirs_to_clean, determine_exclude, resolve, split_list, Args, Config, ExcludeConfig,
    KindConfig, ProjectKind,
};

fn args() -> Args {
    Args {
        path: ".".to_string(),
        dirs: None,
        exclude: None,
        kind: Some(ProjectKind::All),
        force: false,
        dry_run: false,
        interactive: false,
        ci: false,
        log: "info".to_string(),
        log_file: None,
        max_depth: 0,
        config: None,
    }
}

fn strings(v: &[&str]) -> Vec<String> {
    v.iter().map(|s| s.to_string()).collect()
}

fn config_with(kind: &str, dirs: Option<&[&str]>, exclude: Option<&[&str]>) -> Config {
    Config {
        kinds: Some(vec![(
            kind.to_string(),
            KindConfig {
                dirs: dirs.map(strings),
            },
        )]),
        exclude: Some(ExcludeConfig {
            patterns: exclude.map(strings),
        }),
    }
}

#[test]
fn cli_dirs_take_precedence_over_config() {
    let mut a = args();
    a.dirs = Some("a,b".to_string());
    let cfg = Some(config_with("all", Some(&["c"]), None));
    assert_eq!(determine_dirs_to_clean(&a, &cfg), strings(&["a", "b"]));
}

#[test]
fn config_dirs_used_for_active_kind() {
    let a = args();
    let cfg = Some(config_with("all", Some(&["custom"]), None));
    assert_eq!(determine_dirs_to_clean(&a, &cfg), strings(&["custom"]));
}

#[test]
fn missing_kind_defaults_to_all_section() {
    let mut a = args();
    a.kind = None;
    let cfg = Some(config_with("all", Some(&["custom"]), None));
    assert_eq!(determine_dirs_to_clean(&a, &cfg), strings(&["custom"]));
}

#[test]
fn config_section_of_other_kind_is_ignored() {
    let mut a = args();
    a.kind = Some(ProjectKind::Rust);
    let cfg = Some(config_with("python", Some(&["custom"]), None));
    assert_eq!(determine_dirs_to_clean(&a, &cfg), strings(&["target", "out", "build"]));
}

#[test]
fn config_section_without_dirs_falls_back_to_defaults() {
    let mut a = args();
    a.kind = Some(ProjectKind::Go);
    let cfg = Some(config_with("go", None, None));
    assert_eq!(determine_dirs_to_clean(&a, &cfg), strings(&["bin", "pkg", "out"]));
}

#[test]
fn no_config_uses_kind_defaults() {
    let mut a = args();
    a.kind = Some(ProjectKind::CSharp);
    assert_eq!(determine_dirs_to_clean(&a, &None), strings(&["bin", "obj", "out"]));
}

#[test]
fn cli_dirs_drop_empty_segments_only() {
    let mut a = args();
    a.dirs = Some(",target,, out ,".to_string());
    assert_eq!(determine_dirs_to_clean(&a, &None), strings(&["target", " out "]));
}

#[test]
fn exclude_precedence() {
    let mut a = args();
    let cfg = Some(config_with("all", None, Some(&[".git"])));
    assert_eq!(determine_exclude(&a, &cfg), strings(&[".git"]));
    assert!(determine_exclude(&a, &None).is_empty());
    a.exclude = Some("keepme,docs".to_string());
    assert_eq!(determine_exclude(&a, &cfg), strings(&["keepme", "docs"]));
}

#[test]
fn exclude_section_without_patterns_is_empty() {
    let a = args();
    let cfg = Some(config_with("all", None, None));
    assert!(determine_exclude(&a, &cfg).is_empty());
}

#[test]
fn resolve_carries_flags() {
    let mut a = args();
    a.dirs = Some("target".to_string());
    a.exclude = Some("keepme".to_string());
    a.max_depth = 3;
    a.dry_run = true;
    a.ci = true;
    let cfg = resolve(&a, &None);
    assert_eq!(cfg.include_patterns, strings(&["target"]));
    assert_eq!(cfg.exclude_patterns, strings(&["keepme"]));
    assert_eq!(cfg.max_depth, 3);
    assert!(cfg.dry_run);
    assert!(!cfg.force);
    assert!(!cfg.interactive);
    assert!(cfg.ci_mode);
}

#[test]
fn split_list_cases() {
    assert!(split_list("").is_empty());
    assert!(split_list(",,,").is_empty());
    assert_eq!(split_list("a"), strings(&["a"]));
    assert_eq!(split_list("a,,b,"), strings(&["a", "b"]));
    assert_eq!(split_list("é,ü"), strings(&["é", "ü"]));
}
