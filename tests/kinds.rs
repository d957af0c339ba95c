use cleaner::{default_dirs_for_kind, ProjectKind};

#[test]
fn test_default_dirs_for_rust() {
    let dirs = default_dirs_for_kind(&ProjectKind::Rust);
    assert_eq!(dirs, vec!["target", "out", "build"]);
}

#[test]
fn test_default_dirs_for_python() {
    let dirs = default_dirs_for_kind(&ProjectKind::Python);
    assert!(dirs.contains(&"__pycache__"));
    assert!(dirs.contains(&".venv"));
    assert!(dirs.contains(&"venv"));
}

#[test]
fn test_default_dirs_for_java() {
    let dirs = default_dirs_for_kind(&ProjectKind::Java);
    assert!(dirs.contains(&"build"));
    assert!(dirs.contains(&"target"));
}

#[test]
fn test_default_dirs_for_ide() {
    let dirs = default_dirs_for_kind(&ProjectKind::Ide);
    assert!(dirs.contains(&".idea"));
    assert!(dirs.contains(&".vscode"));
}

#[test]
fn test_default_dirs_for_node() {
    let dirs = default_dirs_for_kind(&ProjectKind::Node);
    assert!(dirs.contains(&"node_modules"));
    assert!(dirs.contains(&"dist"));
}

#[test]
fn test_default_dirs_for_go() {
    let dirs = default_dirs_for_kind(&ProjectKind::Go);
    assert!(dirs.contains(&"bin"));
    assert!(dirs.contains(&"pkg"));
}

#[test]
fn test_default_dirs_for_csharp() {
    let dirs = default_dirs_for_kind(&ProjectKind::CSharp);
    assert!(dirs.contains(&"bin"));
    assert!(dirs.contains(&"obj"));
}

#[test]
fn test_default_dirs_for_cpp() {
    let dirs = default_dirs_for_kind(&ProjectKind::Cpp);
    assert!(dirs.contains(&"build"));
    assert!(dirs.contains(&"CMakeFiles"));
}

#[test]
fn test_default_dirs_for_php() {
    let dirs = default_dirs_for_kind(&ProjectKind::Php);
    assert!(dirs.contains(&"vendor"));
    assert!(dirs.contains(&"cache"));
}

#[test]
fn test_default_dirs_for_ruby() {
    let dirs = default_dirs_for_kind(&ProjectKind::Ruby);
    assert!(dirs.contains(&".bundle"));
    assert!(dirs.contains(&"tmp"));
}

const SINGLE_KINDS: [ProjectKind; 10] = [
    ProjectKind::Ide,
    ProjectKind::Rust,
    ProjectKind::Python,
    ProjectKind::Java,
    ProjectKind::Node,
    ProjectKind::Go,
    ProjectKind::CSharp,
    ProjectKind::Cpp,
    ProjectKind::Php,
    ProjectKind::Ruby,
];

#[test]
fn all_kind_is_deduplicated_union() {
    let all = default_dirs_for_kind(&ProjectKind::All);
    assert_eq!(all.iter().filter(|d| **d == "target").count(), 1);
    assert_eq!(all.iter().filter(|d| **d == "build").count(), 1);
    for (i, a) in all.iter().enumerate() {
        for b in all.iter().skip(i + 1) {
            assert_ne!(a, b);
        }
    }
    for k in SINGLE_KINDS.iter() {
        for d in default_dirs_for_kind(k) {
            assert!(all.contains(&d), "{} missing from all", d);
        }
    }
    for d in all.iter() {
        assert!(SINGLE_KINDS.iter().any(|k| default_dirs_for_kind(k).contains(d)));
    }
}

#[test]
fn all_kind_keeps_first_appearance_order() {
    let all = default_dirs_for_kind(&ProjectKind::All);
    assert_eq!(all[0], ".idea");
    assert_eq!(&all[10..13], &["target", "out", "build"]);
    assert_eq!(all[13], "__pycache__");
    assert_eq!(all.len(), 42);
}

#[test]
fn kind_names_are_lower_case() {
    assert_eq!(ProjectKind::All.as_str(), "all");
    assert_eq!(ProjectKind::CSharp.as_str(), "csharp");
    assert_eq!(ProjectKind::Cpp.as_str(), "cpp");
    assert_eq!(ProjectKind::Ruby.as_str(), "ruby");
}
