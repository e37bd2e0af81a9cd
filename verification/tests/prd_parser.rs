use ralpher::prd_parser::{
    parse_bullet, parse_prd, parse_prd_tasks, parse_user_story_header, stories_to_tasks, UserStory,
};
use ralpher::task::TaskStatus;

#[test]
fn test_parse_user_story_header_us_format() {
    let result = parse_user_story_header("### US-1: Continue and cook");
    assert!(result.is_some());
    let story = result.unwrap();
    assert_eq!(story.id, "US-1");
    assert_eq!(story.title, "Continue and cook");
}

#[test]
fn test_parse_user_story_header_quoted() {
    let result = parse_user_story_header("### US-1: \"Continue and cook\"");
    assert!(result.is_some());
    let story = result.unwrap();
    assert_eq!(story.id, "US-1");
    assert_eq!(story.title, "Continue and cook");
}

#[test]
fn test_parse_user_story_header_user_story_format() {
    let result = parse_user_story_header("### User Story 1: Continue and cook");
    assert!(result.is_some());
    let story = result.unwrap();
    assert_eq!(story.id, "US-1");
    assert_eq!(story.title, "Continue and cook");
}

#[test]
fn test_parse_bullet_dash() {
    assert_eq!(
        parse_bullet("- criterion 1"),
        Some("criterion 1".to_string())
    );
}

#[test]
fn test_parse_bullet_asterisk() {
    assert_eq!(
        parse_bullet("* criterion 2"),
        Some("criterion 2".to_string())
    );
}

#[test]
fn test_parse_bullet_numbered() {
    assert_eq!(
        parse_bullet("1. criterion 3"),
        Some("criterion 3".to_string())
    );
}

#[test]
fn test_parse_prd_simple() {
    let content = r#"
# PRD

## User Stories

### US-1: First feature
As a user, I want to do something.

Acceptance:
- Criterion 1
- Criterion 2

### US-2: Second feature
As a user, I want another thing.

Acceptance:
- Criterion A
- Criterion B
"#;

    let stories = parse_prd(content);
    assert_eq!(stories.len(), 2);

    assert_eq!(stories[0].id, "US-1");
    assert_eq!(stories[0].title, "First feature");
    assert_eq!(stories[0].acceptance.len(), 2);
    assert_eq!(stories[0].acceptance[0], "Criterion 1");
    assert_eq!(stories[0].acceptance[1], "Criterion 2");

    assert_eq!(stories[1].id, "US-2");
    assert_eq!(stories[1].title, "Second feature");
    assert_eq!(stories[1].acceptance.len(), 2);
}

#[test]
fn test_parse_prd_with_story_text() {
    let content = r#"
### US-1: Test feature
As a user, I want to test something so that I can verify it works.

Acceptance:
- It works
"#;

    let stories = parse_prd(content);
    assert_eq!(stories.len(), 1);
    assert!(stories[0].story.is_some());
    assert!(stories[0].story.as_ref().unwrap().contains("As a user"));
}

#[test]
fn test_stories_to_tasks() {
    let stories = vec![UserStory {
        id: "US-1".to_string(),
        title: "Test feature".to_string(),
        story: Some("As a user...".to_string()),
        acceptance: vec!["Criterion 1".to_string(), "Criterion 2".to_string()],
    }];

    let tasks = stories_to_tasks(&stories);
    assert_eq!(tasks.len(), 1);
    assert_eq!(tasks[0].id, "us-1");
    assert_eq!(tasks[0].title, "Test feature");
    assert_eq!(tasks[0].status, TaskStatus::Todo);
    assert_eq!(tasks[0].acceptance.len(), 2);
    assert_eq!(tasks[0].notes, Some("As a user...".to_string()));
}

#[test]
fn test_parse_actual_prd_format() {
    // Test with the actual format from product/prd.md
    let content = r#"
## 3. Core user stories

### US-1: "Continue and cook"
As a developer, when I run `ralpher continue` in a repo with `ralpher.toml`, I want ralpher to keep iterating until the PRD is fully done, so I can rely on a single command to drive work to completion.

Acceptance:
- Detects `ralpher.toml` and required artifacts (PRD file / task list)
- Starts a run (or resumes the last run) automatically
- Iterates until completion criteria met for all tasks
- Produces a final summary (what changed, last commit, validators)

### US-2: TUI observability
As a developer, I want a TUI that shows iteration count, last agent output, validator results, current task, and PRD doneness, so I can understand progress at a glance.

Acceptance:
- TUI shows: current phase, current task, task completion %, iterations elapsed, time elapsed, next action
- Live streaming logs (agent + validators)
- Clear indicators for PASS/FAIL/policy violations
- View last commit SHA / diff summary
"#;

    let stories = parse_prd(content);
    assert_eq!(stories.len(), 2);

    assert_eq!(stories[0].id, "US-1");
    assert_eq!(stories[0].title, "Continue and cook");
    assert_eq!(stories[0].acceptance.len(), 4);
    assert!(stories[0].acceptance[0].contains("Detects `ralpher.toml`"));

    assert_eq!(stories[1].id, "US-2");
    assert_eq!(stories[1].title, "TUI observability");
    assert_eq!(stories[1].acceptance.len(), 4);
}

#[test]
fn headers_without_colon_or_with_spaces() {
    let story = parse_user_story_header("## US-12 Plain title").unwrap();
    assert_eq!(story.id, "US-12");
    assert_eq!(story.title, "Plain title");
    let story = parse_user_story_header("us-3 : Spaced").unwrap();
    assert_eq!(story.id, "US-3");
    assert_eq!(story.title, "Spaced");
    let story = parse_user_story_header("US-4").unwrap();
    assert_eq!(story.id, "US-4");
    assert_eq!(story.title, "");
    assert!(story.story.is_none());
    assert!(story.acceptance.is_empty());
}

#[test]
fn story_headers_in_any_case() {
    let story = parse_user_story_header("# USER STORY login: Log in").unwrap();
    assert_eq!(story.id, "LOGIN");
    assert_eq!(story.title, "Log in");
    assert!(parse_user_story_header("User story without colon").is_none());
    assert!(parse_user_story_header("## User Stories").is_none());
    assert!(parse_user_story_header("Us-1: mixed").is_none());
    let story = parse_user_story_header("User Story : nameless").unwrap();
    assert_eq!(story.id, "US-");
}

#[test]
fn identifiers_are_upper_cased() {
    let story = parse_user_story_header("us-a1: x").unwrap();
    assert_eq!(story.id, "US-A1");
    let story = parse_user_story_header("us-\u{e9}: x").unwrap();
    assert_eq!(story.id, "US-\u{c9}");
}

#[test]
fn bullets_of_all_kinds() {
    assert_eq!(parse_bullet("\u{2022} dot"), Some("dot".to_string()));
    assert_eq!(parse_bullet("  12) paren"), Some("paren".to_string()));
    assert_eq!(parse_bullet("3. a. b"), Some("a. b".to_string()));
    assert_eq!(parse_bullet("-no space"), None);
    assert_eq!(parse_bullet("plain"), None);
    assert_eq!(parse_bullet(""), None);
    assert_eq!(parse_bullet("7 seven"), None);
    assert_eq!(parse_bullet("1) see e.g. foo"), Some("see e.g. foo".to_string()));
    assert_eq!(parse_bullet("10. (a) b"), Some("(a) b".to_string()));
    assert_eq!(parse_bullet("3 apples. More"), None);
    assert_eq!(parse_bullet("4.5"), None);
}

#[test]
fn headings_end_the_criteria() {
    let stories = parse_prd(
        "ignored\n### US-1: A\r\nline one\n\nAcceptance criteria:\n- one\n**More acceptance**\n- two\n## Notes\n- three\nline two\n### US-2: B\n",
    );
    assert_eq!(stories.len(), 2);
    assert_eq!(stories[0].acceptance, vec!["one".to_string(), "two".to_string()]);
    assert_eq!(
        stories[0].story,
        Some("line one **More acceptance** - three line two".to_string())
    );
    assert_eq!(stories[1].id, "US-2");
    assert!(stories[1].story.is_none());
    assert!(stories[1].acceptance.is_empty());
}

#[test]
fn one_story_for_each_header() {
    assert!(parse_prd("").is_empty());
    assert!(parse_prd("no\nheaders\n").is_empty());
    assert_eq!(parse_prd("US-1\nUS-2\ntext\nUS-3").len(), 3);
}

#[test]
fn stories_of_joined_documents_add_up() {
    let first = "intro\nUS-1: One\nText\nAcceptance:\n- a\r\n- b";
    let second = "## US-2: Two\nMore";
    for end in ["", "\r", "\n", "\n\n"] {
        let first = format!("{}{}", first, end);
        let mut apart = parse_prd(&first);
        apart.extend(parse_prd(second));
        let joined = parse_prd(&format!("{}\n{}", first, second));
        assert_eq!(joined.len(), 2);
        for (a, b) in joined.iter().zip(&apart) {
            assert_eq!(a.id, b.id);
            assert_eq!(a.title, b.title);
            assert_eq!(a.story, b.story);
            assert_eq!(a.acceptance, b.acceptance);
        }
        assert_eq!(joined[0].acceptance, vec!["a", "b"]);
        assert_eq!(joined[1].story, Some("More".to_string()));
    }
}

#[test]
fn tasks_follow_their_stories() {
    let tasks = parse_prd_tasks("### User Story Big Thing: Do it\nAs a user.\nAcceptance:\n- done\n");
    assert_eq!(tasks.len(), 1);
    assert_eq!(tasks[0].id, "big-thing");
    assert_eq!(tasks[0].title, "Do it");
    assert_eq!(tasks[0].status, TaskStatus::Todo);
    assert_eq!(tasks[0].acceptance, vec!["done".to_string()]);
    assert_eq!(tasks[0].notes, Some("As a user.".to_string()));
    assert!(tasks[0].validators.is_empty());
    let tasks = stories_to_tasks(&[UserStory {
        id: "\u{c9}-1".to_string(),
        title: String::new(),
        story: None,
        acceptance: vec![],
    }]);
    assert_eq!(tasks[0].id, "\u{e9}-1");
}
