use ralpher::cli::{Cli, CliCommand};
use ralpher::config::{
    config_path, missing_config_message, AgentConfig, ArchonConfig, Config, GitMode,
    DEFAULT_MAX_ITERATIONS,
};
use ralpher::path::joined;
use ralpher::policy::ViolationAction;

#[test]
fn test_config_new() {
    let config = Config::new();
    assert_eq!(config.git_mode, GitMode::Branch);
    assert!(config.agent.is_none());
    assert!(config.validators.is_empty());
    assert_eq!(config.max_iterations, DEFAULT_MAX_ITERATIONS);
}

#[test]
fn test_missing_config() {
    assert!(missing_config_message("/repo").contains("No ralpher.toml"));
    assert_eq!(
        missing_config_message("/repo"),
        "No ralpher.toml found in /repo. Run `ralpher` from a directory with a ralpher.toml config file."
    );
}

#[test]
fn defaults_are_those_of_a_new_config() {
    let config = Config::default();
    assert_eq!(config.max_iterations, 100);
    assert!(config.policy.deny_deletes);
    assert!(!config.archon.enabled);
    assert_eq!(GitMode::default(), GitMode::Branch);
    let archon = ArchonConfig::default();
    assert!(archon.project_id.is_none());
    assert!(!archon.use_rag);
}

#[test]
fn setup_splits_the_command() {
    let config = Config::from_setup("  codex run\t--print ", GitMode::Trunk);
    let agent = config.agent.unwrap();
    assert_eq!(agent.runner_type, "command");
    assert_eq!(agent.cmd, vec!["codex", "run", "--print"]);
    assert_eq!(config.git_mode, GitMode::Trunk);
    assert_eq!(config.max_iterations, 100);
    assert!(config.policy.deny_renames);
}

#[test]
fn setup_splits_quoted_words() {
    let config = Config::from_setup("sh -c 'a b' # note", GitMode::Branch);
    assert_eq!(config.agent.unwrap().cmd, vec!["sh", "-c", "a b"]);
}

#[test]
fn setup_keeps_a_command_that_cannot_be_split() {
    let config = Config::from_setup("say 'oops", GitMode::Branch);
    assert_eq!(config.agent.unwrap().cmd, vec!["say 'oops"]);
    let config = Config::from_words("x y", None, GitMode::Branch);
    assert_eq!(config.agent.unwrap().cmd, vec!["x y"]);
    let config = Config::from_words("x y", Some(vec!["z".to_string()]), GitMode::Branch);
    assert_eq!(config.agent.unwrap().cmd, vec!["z"]);
}

#[test]
fn default_config_is_saved_in_one_line() {
    let file = Config::new().save("/repo");
    assert_eq!(file.path, "/repo/ralpher.toml");
    assert_eq!(file.content, "git_mode = \"branch\"\n");
}

#[test]
fn full_config_is_saved_with_its_sections() {
    let mut config = Config::new();
    config.git_mode = GitMode::Trunk;
    config.max_iterations = 7;
    config.validators = vec!["cargo test".to_string(), "echo \"hi\"".to_string()];
    config.agent = Some(AgentConfig {
        runner_type: "command".to_string(),
        cmd: vec!["sh".to_string(), "a \"b\"".to_string()],
    });
    config.policy.deny_deletes = false;
    config.policy.allow_paths = vec!["*.tmp".to_string(), "test/**".to_string()];
    config.policy.deny_paths = vec!["secrets/*".to_string()];
    config.policy.on_violation = ViolationAction::Keep;
    assert_eq!(
        config.save("dir/").content,
        "git_mode = \"trunk\"\nmax_iterations = 7\nvalidators = [\n    \"cargo test\",\n    \"echo \\\"hi\\\"\",\n]\n\n[agent]\ntype = \"command\"\ncmd = [\"sh\", \"a \\\"b\\\"\"]\n\n[policy]\ndeny_deletes = false\nallow_paths = [\"*.tmp\", \"test/**\"]\ndeny_paths = [\"secrets/*\"]\non_violation = \"keep\"\n"
    );
    config.policy.deny_renames = false;
    config.policy.on_violation = ViolationAction::Reset;
    let content = config.save("dir/").content;
    assert!(content.contains("deny_renames = false\n"));
    assert!(content.ends_with("on_violation = \"reset\"\n"));
}

#[test]
fn saved_config_is_read_back() {
    let mut config = Config::new();
    config.git_mode = GitMode::Trunk;
    config.max_iterations = 50;
    config.validators = vec!["echo \"hi\"".to_string()];
    config.policy.allow_paths = vec!["test/**".to_string()];
    let parsed: toml::Table = config.save(".").content.parse().unwrap();
    assert_eq!(parsed["git_mode"].as_str(), Some("trunk"));
    assert_eq!(parsed["max_iterations"].as_integer(), Some(50));
    assert_eq!(parsed["validators"][0].as_str(), Some("echo \"hi\""));
    assert_eq!(parsed["policy"]["allow_paths"][0].as_str(), Some("test/**"));
}

#[test]
fn every_text_is_read_back() {
    let odd = "a\\b \"c\" \t\n\r\u{0}\u{1f}\u{7f}\u{e4}'";
    let mut config = Config::new();
    config.validators = vec![odd.to_string(), "\\".to_string()];
    config.agent = Some(AgentConfig {
        runner_type: odd.to_string(),
        cmd: vec![odd.to_string(), String::new()],
    });
    config.policy.allow_paths = vec![odd.to_string()];
    config.policy.deny_paths = vec![odd.to_string()];
    config.archon.project_id = Some(odd.to_string());
    let parsed: toml::Table = config.save(".").content.parse().unwrap();
    assert_eq!(parsed["validators"][0].as_str(), Some(odd));
    assert_eq!(parsed["validators"][1].as_str(), Some("\\"));
    assert_eq!(parsed["agent"]["type"].as_str(), Some(odd));
    assert_eq!(parsed["agent"]["cmd"][0].as_str(), Some(odd));
    assert_eq!(parsed["agent"]["cmd"][1].as_str(), Some(""));
    assert_eq!(parsed["policy"]["allow_paths"][0].as_str(), Some(odd));
    assert_eq!(parsed["policy"]["deny_paths"][0].as_str(), Some(odd));
    assert_eq!(parsed["archon"]["project_id"].as_str(), Some(odd));
    config = Config::new();
    config.validators = vec!["\u{1b}".to_string()];
    assert_eq!(
        config.save(".").content,
        "git_mode = \"branch\"\nvalidators = [\n    \"\\u001b\",\n]\n"
    );
}

#[test]
fn archon_settings_are_saved() {
    let mut config = Config::new();
    config.archon =
        ArchonConfig { enabled: true, project_id: Some("p-1".to_string()), use_rag: true };
    assert_eq!(
        config.save(".").content,
        "git_mode = \"branch\"\n\n[archon]\nenabled = true\nproject_id = \"p-1\"\nuse_rag = true\n"
    );
    config.archon = ArchonConfig { enabled: false, project_id: None, use_rag: true };
    assert!(config.save(".").content.ends_with("\n[archon]\nuse_rag = true\n"));
}

#[test]
fn paths_are_joined() {
    assert_eq!(joined("a", "b"), "a/b");
    assert_eq!(joined("a/", "b"), "a/b");
    assert_eq!(joined("", "b"), "b");
    assert_eq!(joined("a", "/b"), "/b");
    assert_eq!(joined("a", ""), "a/");
    assert_eq!(config_path("/x"), "/x/ralpher.toml");
}

fn no_flags() -> Cli {
    Cli {
        log_level: None,
        iteration: false,
        status: false,
        validate: false,
        abort: false,
        clean: false,
        start: false,
    }
}

#[test]
fn no_flag_launches_the_interface() {
    let cli = no_flags();
    assert!(!cli.is_cli_mode());
    assert_eq!(cli.command(), CliCommand::Tui);
}

#[test]
fn flags_are_taken_in_order() {
    let mut cli = no_flags();
    cli.iteration = true;
    assert!(cli.is_cli_mode());
    assert_eq!(cli.command(), CliCommand::Iteration);
    cli.start = true;
    assert_eq!(cli.command(), CliCommand::Start);
    cli.clean = true;
    assert_eq!(cli.command(), CliCommand::Clean);
    cli.abort = true;
    assert_eq!(cli.command(), CliCommand::Abort);
    cli.validate = true;
    assert_eq!(cli.command(), CliCommand::Validate);
    cli.status = true;
    assert_eq!(cli.command(), CliCommand::Status);
}
