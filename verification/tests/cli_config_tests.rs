use aiosc::cli::{classify_cd_path, parse_args, parse_input, CdPath, InputAction, Invocation};
use aiosc::completion::{builtin_candidates, filter_prefix, special_commands, word_at_cursor};
use aiosc::config::{apply_env_overrides, initial_config, Config};
use aiosc::llm::{
    classify_http_status, classify_send_failure, completions_url, error_message, LlmError,
};
use aiosc::text::parse_usize;

fn strings(v: &[&str]) -> Vec<String> {
    v.iter().map(|s| s.to_string()).collect()
}

#[test]
fn builtin_names_dispatch_exactly() {
    assert!(matches!(parse_input("exit"), InputAction::Exit));
    assert!(matches!(parse_input("  exit  "), InputAction::Exit));
    assert!(matches!(parse_input("help"), InputAction::Help));
    assert!(matches!(parse_input("reset"), InputAction::Reset));
    assert!(matches!(parse_input("context"), InputAction::ShowContext));
}

#[test]
fn cd_and_cmd_builtins_carry_their_arguments() {
    match parse_input("cd ~/work") {
        InputAction::ChangeDir(p) => assert_eq!(p, "~/work"),
        _ => panic!("expected a directory change"),
    }
    match parse_input("cmd  ls -la ") {
        InputAction::Direct(c) => assert_eq!(c, "ls -la"),
        _ => panic!("expected a direct command"),
    }
}

#[test]
fn anything_else_is_a_model_prompt() {
    match parse_input(" list the directory ") {
        InputAction::Prompt(s) => assert_eq!(s, "list the directory"),
        _ => panic!("expected a prompt"),
    }
    // Near-misses of the builtins are prompts, not builtins.
    assert!(matches!(parse_input("exit now"), InputAction::Prompt(_)));
    assert!(matches!(parse_input("cd"), InputAction::Prompt(_)));
    assert!(matches!(parse_input("cmdlet"), InputAction::Prompt(_)));
}

#[test]
fn cd_paths_classify_for_tilde_expansion() {
    assert!(matches!(classify_cd_path("~"), CdPath::Home));
    match classify_cd_path("~/docs") {
        CdPath::HomeRelative(rest) => assert_eq!(rest, "docs"),
        _ => panic!("expected a home-relative path"),
    }
    match classify_cd_path("/tmp") {
        CdPath::Plain(p) => assert_eq!(p, "/tmp"),
        _ => panic!("expected a plain path"),
    }
    // "~x" is neither the home directory nor home-relative.
    assert!(matches!(classify_cd_path("~x"), CdPath::Plain(_)));
}

#[test]
fn no_arguments_runs_interactively() {
    assert!(matches!(parse_args(&strings(&["prog"])), Invocation::Interactive));
    assert!(matches!(parse_args(&strings(&[])), Invocation::Interactive));
}

#[test]
fn arguments_join_into_a_prompt_with_flags_anywhere() {
    match parse_args(&strings(&["prog", "list", "the", "directory"])) {
        Invocation::OneShot { prompt, no_confirm, silent } => {
            assert_eq!(prompt, "list the directory");
            assert!(!no_confirm);
            assert!(!silent);
        }
        _ => panic!("expected a one-shot invocation"),
    }
    match parse_args(&strings(&["prog", "--no-confirm", "do", "--silent", "it"])) {
        Invocation::OneShot { prompt, no_confirm, silent } => {
            assert_eq!(prompt, "do it");
            assert!(no_confirm);
            assert!(silent);
        }
        _ => panic!("expected a one-shot invocation"),
    }
}

#[test]
fn flags_without_a_prompt_are_refused() {
    assert!(matches!(
        parse_args(&strings(&["prog", "--no-confirm", "--silent"])),
        Invocation::EmptyPrompt
    ));
}

#[test]
fn initial_config_holds_the_documented_baseline() {
    let c = initial_config();
    assert!(!c.debug);
    assert_eq!(c.api_addr, "https://openrouter.ai/api/v1");
    assert_eq!(c.api_key, "");
    assert_eq!(c.model, "qwen/qwen-2.5-coder-32b-instruct:free");
    assert!(c.show_ai_commands_output);
    assert_eq!(c.context_window_size, 32);
    assert_eq!(c.shell_type, "bash");
    assert!(c.require_confirmation);
    assert_eq!(c.cooldown, 0);
    assert!(c.references.is_empty());
}

#[test]
fn default_config_is_empty() {
    let c = Config::default();
    assert!(!c.debug);
    assert_eq!(c.api_addr, "");
    assert_eq!(c.context_window_size, 0);
    assert!(!c.require_confirmation);
}

#[test]
fn environment_overrides_replace_configured_values() {
    let c = apply_env_overrides(
        initial_config(),
        Some("TRUE".to_string()),
        Some("http://localhost:1234/v1".to_string()),
        Some("SECRET-REDACTED".to_string()),
        Some("some/model".to_string()),
        Some("false".to_string()),
        Some("42".to_string()),
        Some("zsh".to_string()),
        Some("False".to_string()),
    );
    assert!(c.debug);
    assert_eq!(c.api_addr, "http://localhost:1234/v1");
    assert_eq!(c.api_key, "SECRET-REDACTED");
    assert_eq!(c.model, "some/model");
    assert!(!c.show_ai_commands_output);
    assert_eq!(c.context_window_size, 42);
    assert_eq!(c.shell_type, "zsh");
    assert!(!c.require_confirmation);
}

#[test]
fn absent_and_unparsable_overrides_leave_the_config_alone() {
    let c = apply_env_overrides(
        initial_config(),
        None,
        None,
        None,
        None,
        None,
        Some("not-a-number".to_string()),
        None,
        None,
    );
    assert!(!c.debug);
    assert_eq!(c.api_addr, "https://openrouter.ai/api/v1");
    assert_eq!(c.context_window_size, 32);
    assert!(c.require_confirmation);
}

#[test]
fn decimal_parsing_matches_the_standard_rules() {
    assert_eq!(parse_usize("42"), Some(42));
    assert_eq!(parse_usize("+7"), Some(7));
    assert_eq!(parse_usize("007"), Some(7));
    assert_eq!(parse_usize("0"), Some(0));
    assert_eq!(parse_usize(""), None);
    assert_eq!(parse_usize("+"), None);
    assert_eq!(parse_usize("12a"), None);
    assert_eq!(parse_usize("-3"), None);
    assert_eq!(parse_usize("99999999999999999999999999999999"), None);
    assert_eq!(parse_usize(&usize::MAX.to_string()), Some(usize::MAX));
}

#[test]
fn the_completions_endpoint_hangs_off_the_api_address() {
    assert_eq!(
        completions_url("https://openrouter.ai/api/v1"),
        "https://openrouter.ai/api/v1/chat/completions"
    );
}

#[test]
fn http_statuses_classify_as_documented() {
    assert!(classify_http_status(200).is_none());
    assert!(classify_http_status(299).is_none());
    assert!(matches!(classify_http_status(401), Some(LlmError::AuthFailed)));
    assert!(matches!(classify_http_status(404), Some(LlmError::EndpointNotFound)));
    assert!(matches!(classify_http_status(500), Some(LlmError::HttpStatus(500))));
    assert!(matches!(classify_http_status(300), Some(LlmError::HttpStatus(300))));
}

#[test]
fn send_failures_classify_and_render() {
    assert!(matches!(classify_send_failure(true, "x".to_string()), LlmError::ConnectionRefused));
    match classify_send_failure(false, "timed out".to_string()) {
        LlmError::Transport(d) => assert_eq!(d, "timed out"),
        _ => panic!("expected a transport error"),
    }
    assert_eq!(error_message(&LlmError::AuthFailed), "Invalid API key or authentication failed");
    assert_eq!(error_message(&LlmError::EndpointNotFound), "API endpoint not found");
    assert_eq!(
        error_message(&LlmError::ConnectionRefused),
        "Failed to connect to the LLM server"
    );
    assert_eq!(
        error_message(&LlmError::HttpStatus(503)),
        "API request failed with status code: 503"
    );
}

#[test]
fn the_word_under_the_cursor_is_found() {
    assert_eq!(word_at_cursor("cmd l", 5), (4, "l".to_string()));
    assert_eq!(word_at_cursor("cmd l", 4), (4, "".to_string()));
    assert_eq!(word_at_cursor("hello", 3), (0, "hel".to_string()));
    assert_eq!(word_at_cursor("", 0), (0, "".to_string()));
}

#[test]
fn special_commands_complete_at_the_start_of_a_line() {
    let all = special_commands();
    assert_eq!(all, strings(&["cd", "cmd", "exit", "help", "reset", "context"]));
    assert_eq!(filter_prefix(&all, "c"), strings(&["cd", "cmd", "context"]));
    match builtin_candidates("re", 2) {
        Some((start, cands)) => {
            assert_eq!(start, 0);
            assert_eq!(cands, strings(&["reset"]));
        }
        None => panic!("expected candidates"),
    }
    // Past the first word nothing is offered here.
    assert!(builtin_candidates("cmd x", 5).is_none());
    // No special command starts with this word.
    assert!(builtin_candidates("zzz", 3).is_none());
}
