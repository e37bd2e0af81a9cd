use ralpher::event::ViolationSeverity;
use ralpher::glob::{matches_doublestar, matches_glob, matches_simple_glob};
use ralpher::policy::{PolicyConfig, PolicyEngine, ViolationAction};
use ralpher::workspace::{ChangeType, FileChange};

#[test]
fn test_default_policy() {
    let config = PolicyConfig::new();
    assert!(config.deny_deletes);
    assert!(config.deny_renames);
    assert!(config.allow_paths.is_empty());
    assert!(config.deny_paths.is_empty());
    assert_eq!(config.on_violation, ViolationAction::Abort);
}

#[test]
fn test_permissive_policy() {
    let config = PolicyConfig::permissive();
    assert!(!config.deny_deletes);
    assert!(!config.deny_renames);
    assert_eq!(config.on_violation, ViolationAction::Keep);
}

#[test]
fn test_check_no_violations() {
    let engine = PolicyEngine::with_defaults();
    let changes = vec![
        FileChange {
            change_type: ChangeType::Added,
            path: "new_file.rs".to_string(),
            old_path: None,
        },
        FileChange {
            change_type: ChangeType::Modified,
            path: "src/main.rs".to_string(),
            old_path: None,
        },
    ];

    let result = engine.check(&changes);
    assert!(result.is_clean());
    assert!(!result.has_errors);
}

#[test]
fn test_check_deletion_violation() {
    let engine = PolicyEngine::with_defaults();
    let changes = vec![FileChange {
        change_type: ChangeType::Deleted,
        path: "src/old.rs".to_string(),
        old_path: None,
    }];

    let result = engine.check(&changes);
    assert!(!result.is_clean());
    assert!(result.has_errors);
    assert_eq!(result.violations.len(), 1);
    assert_eq!(result.violations[0].rule, "deny_deletes");
    assert!(result.violations[0].details.contains("src/old.rs"));
}

#[test]
fn test_check_rename_violation() {
    let engine = PolicyEngine::with_defaults();
    let changes = vec![FileChange {
        change_type: ChangeType::Renamed,
        path: "new_name.rs".to_string(),
        old_path: Some("old_name.rs".to_string()),
    }];

    let result = engine.check(&changes);
    assert!(!result.is_clean());
    assert!(result.has_errors);
    assert_eq!(result.violations.len(), 1);
    assert_eq!(result.violations[0].rule, "deny_renames");
    assert!(result.violations[0].details.contains("old_name.rs"));
    assert!(result.violations[0].details.contains("new_name.rs"));
}

#[test]
fn test_check_deletion_allowed_when_disabled() {
    let config = PolicyConfig {
        deny_deletes: false,
        ..PolicyConfig::new()
    };
    let engine = PolicyEngine::new(config);
    let changes = vec![FileChange {
        change_type: ChangeType::Deleted,
        path: "src/old.rs".to_string(),
        old_path: None,
    }];

    let result = engine.check(&changes);
    assert!(result.is_clean());
}

#[test]
fn test_check_rename_allowed_when_disabled() {
    let config = PolicyConfig {
        deny_renames: false,
        ..PolicyConfig::new()
    };
    let engine = PolicyEngine::new(config);
    let changes = vec![FileChange {
        change_type: ChangeType::Renamed,
        path: "new.rs".to_string(),
        old_path: Some("old.rs".to_string()),
    }];

    let result = engine.check(&changes);
    assert!(result.is_clean());
}

#[test]
fn test_allow_path_pattern() {
    let config = PolicyConfig {
        deny_deletes: true,
        allow_paths: vec!["*.tmp".to_string(), "test/**".to_string()],
        ..PolicyConfig::default()
    };
    let engine = PolicyEngine::new(config);

    // Deletion of .tmp file should be allowed
    let changes = vec![FileChange {
        change_type: ChangeType::Deleted,
        path: "cache.tmp".to_string(),
        old_path: None,
    }];
    let result = engine.check(&changes);
    assert!(result.is_clean());

    // Deletion in test/ should be allowed
    let changes = vec![FileChange {
        change_type: ChangeType::Deleted,
        path: "test/fixtures/old.json".to_string(),
        old_path: None,
    }];
    let result = engine.check(&changes);
    assert!(result.is_clean());

    // Deletion of regular file should be denied
    let changes = vec![FileChange {
        change_type: ChangeType::Deleted,
        path: "src/main.rs".to_string(),
        old_path: None,
    }];
    let result = engine.check(&changes);
    assert!(!result.is_clean());
}

#[test]
fn test_deny_path_pattern() {
    let config = PolicyConfig {
        deny_deletes: false,
        deny_renames: false,
        deny_paths: vec!["*.lock".to_string(), "src/core/**".to_string()],
        ..PolicyConfig::default()
    };
    let engine = PolicyEngine::new(config);

    // Any change to .lock file should be denied
    let changes = vec![FileChange {
        change_type: ChangeType::Modified,
        path: "Cargo.lock".to_string(),
        old_path: None,
    }];
    let result = engine.check(&changes);
    assert!(!result.is_clean());
    assert_eq!(result.violations[0].rule, "deny_path");

    // Any change in src/core/ should be denied
    let changes = vec![FileChange {
        change_type: ChangeType::Added,
        path: "src/core/important.rs".to_string(),
        old_path: None,
    }];
    let result = engine.check(&changes);
    assert!(!result.is_clean());
}

#[test]
fn test_deny_path_takes_precedence() {
    let config = PolicyConfig {
        allow_paths: vec!["**".to_string()], // Allow everything
        deny_paths: vec!["secrets/*".to_string()],
        ..PolicyConfig::default()
    };
    let engine = PolicyEngine::new(config);

    // Should still deny even though ** allows everything
    let changes = vec![FileChange {
        change_type: ChangeType::Modified,
        path: "secrets/api_key.txt".to_string(),
        old_path: None,
    }];
    let result = engine.check(&changes);
    assert!(!result.is_clean());
    assert_eq!(result.violations[0].rule, "deny_path");
}

#[test]
fn test_multiple_violations() {
    let engine = PolicyEngine::with_defaults();
    let changes = vec![
        FileChange {
            change_type: ChangeType::Deleted,
            path: "file1.rs".to_string(),
            old_path: None,
        },
        FileChange {
            change_type: ChangeType::Deleted,
            path: "file2.rs".to_string(),
            old_path: None,
        },
        FileChange {
            change_type: ChangeType::Renamed,
            path: "new.rs".to_string(),
            old_path: Some("old.rs".to_string()),
        },
    ];

    let result = engine.check(&changes);
    assert_eq!(result.violations.len(), 3);
    assert!(result.has_errors);
}

#[test]
fn test_matches_simple_glob() {
    assert!(matches_simple_glob("*", "anything"));
    assert!(matches_simple_glob("*.rs", "main.rs"));
    assert!(matches_simple_glob("test_*", "test_foo"));
    assert!(matches_simple_glob("test_*_bar", "test_foo_bar"));
    assert!(matches_simple_glob("?.rs", "a.rs"));
    assert!(!matches_simple_glob("?.rs", "ab.rs"));
    assert!(matches_simple_glob("foo", "foo"));
    assert!(!matches_simple_glob("foo", "bar"));
}

#[test]
fn test_matches_glob_with_path() {
    assert!(matches_glob("src/*.rs", "src/main.rs"));
    assert!(matches_glob("src/*", "src/anything"));
    assert!(!matches_glob("src/*.rs", "src/sub/main.rs"));
}

#[test]
fn test_matches_doublestar() {
    assert!(matches_doublestar("**", "anything"));
    assert!(matches_doublestar("**", "a/b/c/d"));
    assert!(matches_doublestar("src/**", "src/foo"));
    assert!(matches_doublestar("src/**", "src/a/b/c"));
    assert!(matches_doublestar("**/test.rs", "test.rs"));
    assert!(matches_doublestar("**/test.rs", "a/b/test.rs"));
    assert!(matches_doublestar("src/**/test.rs", "src/test.rs"));
    assert!(matches_doublestar("src/**/test.rs", "src/a/b/test.rs"));
    assert!(!matches_doublestar("src/**", "other/foo"));
}

#[test]
fn test_violation_action_default() {
    let config = PolicyConfig::default();
    assert_eq!(config.on_violation, ViolationAction::Abort);
}

fn change(change_type: ChangeType, path: &str, old_path: Option<&str>) -> FileChange {
    FileChange {
        change_type,
        path: path.to_string(),
        old_path: old_path.map(|p| p.to_string()),
    }
}

#[test]
fn default_policy_denies_deletes_and_renames() {
    let config = PolicyConfig::default();
    assert!(config.deny_deletes);
    assert!(config.deny_renames);
    let engine = PolicyEngine::new(config);
    assert_eq!(engine.violation_action(), ViolationAction::Abort);
    let result = engine.check(&[
        change(ChangeType::Copied, "a", None),
        change(ChangeType::Unknown('X'), "b", None),
        change(ChangeType::Renamed, "new", Some("old")),
        change(ChangeType::Renamed, "lost", None),
        change(ChangeType::Deleted, "gone", None),
    ]);
    let details: Vec<&str> = result.violations.iter().map(|v| v.details.as_str()).collect();
    assert_eq!(
        details,
        vec![
            "File rename not allowed: old -> new",
            "File rename not allowed: unknown -> lost",
            "File deletion not allowed: gone",
        ]
    );
    assert!(result.violations.iter().all(|v| v.severity == ViolationSeverity::Error));
    assert_eq!(result.violations[0].path, "new");
}

#[test]
fn permissive_policy_lets_everything_pass() {
    let engine = PolicyEngine::new(PolicyConfig::permissive());
    let result = engine.check(&[
        change(ChangeType::Deleted, "a", None),
        change(ChangeType::Renamed, "b", Some("c")),
    ]);
    assert!(result.is_clean());
    assert!(!result.has_errors);
}

#[test]
fn denied_path_is_named_in_details() {
    let config = PolicyConfig {
        deny_paths: vec!["*.lock".to_string()],
        ..PolicyConfig::permissive()
    };
    let engine = PolicyEngine::new(config);
    let result = engine.check(&[change(ChangeType::Deleted, "Cargo.lock", None)]);
    assert_eq!(result.violations.len(), 1);
    assert_eq!(result.violations[0].details, "Path matches deny pattern: Cargo.lock");
    assert!(engine.matches_deny_path("Cargo.lock"));
    assert!(!engine.matches_allow_path("Cargo.lock"));
}

#[test]
fn plain_patterns_match_only_themselves() {
    assert!(matches_glob("src/main.rs", "src/main.rs"));
    assert!(!matches_glob("src/main.rs", "src/main.rs2"));
    assert!(!matches_glob("src/main.rs", "main.rs"));
    assert!(matches_glob("", ""));
    assert!(!matches_glob("", "a"));
}

#[test]
fn stars_stop_at_slashes() {
    assert!(!matches_glob("*", "a/b"));
    assert!(matches_glob("*/*", "a/b"));
    assert!(!matches_glob("?", "/"));
    assert!(matches_glob("a*c*e", "abcde"));
    assert!(!matches_glob("a*c*e", "abcd"));
    assert!(matches_simple_glob("*", ""));
    assert!(!matches_simple_glob("?", ""));
    assert!(matches_simple_glob("\u{e4}*", "\u{e4}\u{f6}\u{fc}"));
    assert!(matches_simple_glob("*\u{fc}", "\u{e4}\u{f6}\u{fc}"));
}

#[test]
fn double_stars_match_across_slashes() {
    assert!(matches_glob("**", ""));
    assert!(matches_glob("a/**/b/**/c", "a/x/b/y/z/c"));
    assert!(!matches_glob("a/**/b/**/c", "a/x/y/z/c"));
    assert!(!matches_glob("a/**/a", "a"));
    assert!(matches_glob("test/**", "test"));
    assert!(matches_doublestar("src/*.rs", "src/main.rs"));
}

#[test]
fn double_stars_mix_with_other_wildcards() {
    assert!(matches_glob("**/*.rs", "src/bin/main.rs"));
    assert!(matches_glob("**/*.rs", "main.rs"));
    assert!(!matches_glob("**/*.rs", "main.c"));
    assert!(matches_glob("src/**/test_?.rs", "src/a/b/test_1.rs"));
    assert!(!matches_glob("src/**/test_?.rs", "src/a/b/test_10.rs"));
    assert!(matches_glob("s*c/**", "src/a/b"));
}

#[test]
fn double_stars_keep_the_slashes_beside_them() {
    assert!(!matches_glob("src/**", "srcfoo/main.rs"));
    assert!(!matches_glob("src/**", "srcfoo"));
    assert!(matches_glob("src**", "srcfoo/main.rs"));
    assert!(!matches_glob("**/test.rs", "atest.rs"));
    assert!(!matches_glob("**/test.rs", "a/btest.rs"));
    assert!(matches_glob("**test.rs", "a/btest.rs"));
    assert!(!matches_glob("a/**/b/**/c", "a/xb/c"));
    assert!(!matches_glob("a/**/b/**/c", "a/bx/c"));
    assert!(matches_glob("a/**/b/**/c", "a/bx/b/c"));
    assert!(matches_glob("a/**/**/b", "a/b"));
    assert!(matches_glob("a/**/**/b", "a/x/b"));
    assert!(!matches_glob("a**/**b", "ab"));
    assert!(matches_glob("a**/**b", "ax/yb"));
    assert!(!matches_glob("/**", "a"));
    assert!(matches_glob("/**", "/a"));
}
