use rsgit::{
    captured_outcome, captured_outcome_of_text, resolve_code, split_words_of, streamed_outcome,
    Failure, Git, IsFailure, Success,
};

fn strings(words: &[&str]) -> Vec<String> {
    words.iter().map(|w| w.to_string()).collect()
}

// The spawning itself lives outside the library; these two tests hand the
// library what the operating system reports for `git --version`.

#[test]
fn test_git_run() {
    let git = Git::new(vec!["--version"]);
    assert_eq!(git.args(), strings(&["--version"]));
    let result = captured_outcome(true, Some(0), b"git version 2.43.0\n".to_vec(), Vec::new());

    assert!(result.is_ok(), "Expected Ok, got Err");

    assert!(result.stdout().is_some(), "Expected stdout, got None");
    assert_eq!(result.code(), 0, "Expected exit code 0, got {}", result.code());
}

#[test]
fn test_git_stream() {
    let git = Git::new(vec!["--version"]);
    assert_eq!(git.args(), strings(&["--version"]));
    let result = streamed_outcome(true, Some(0));

    assert!(result.is_ok(), "Expected Ok, got Err");

    assert!(result.stdout().is_none(), "Expected None, got Some");
    assert_eq!(result.code(), 0, "Expected exit code 0, got {}", result.code());
}

#[test]
fn new_keeps_arguments_in_order() {
    let git = Git::new(vec!["log", "--shortstat", "a b"]);
    assert_eq!(git.args(), strings(&["log", "--shortstat", "a b"]));
}

#[test]
fn empty_argument_list_runs_the_bare_program() {
    let git = Git::new(Vec::new());
    assert!(git.args().is_empty());
    assert_eq!(Git::program(), "git");
}

#[test]
fn phrase_matches_pre_split_tokens() {
    let a = Git::from_phrase("log --shortstat");
    let b = Git::new(vec!["log", "--shortstat"]);
    assert_eq!(a.args(), b.args());
    assert_eq!(a.args(), strings(&["log", "--shortstat"]));
}

#[test]
fn phrase_splits_on_any_run_of_whitespace() {
    assert_eq!(
        split_words_of("  log\t--shortstat \n -n\r\x0c5  "),
        strings(&["log", "--shortstat", "-n", "5"])
    );
}

#[test]
fn phrase_of_only_whitespace_has_no_words() {
    assert!(split_words_of("").is_empty());
    assert!(split_words_of(" \t\n ").is_empty());
    assert!(Git::from_phrase("   ").args().is_empty());
}

#[test]
fn phrase_keeps_non_ascii_words() {
    assert_eq!(split_words_of("commit -m héllo"), strings(&["commit", "-m", "héllo"]));
}

#[test]
fn quoted_phrase_is_not_understood() {
    assert_eq!(
        split_words_of("commit -m \"two words\""),
        strings(&["commit", "-m", "\"two", "words\""])
    );
}

#[test]
fn streamed_failure_carries_no_text() {
    let result = streamed_outcome(false, Some(129));
    assert!(result.failed());
    assert_eq!(result.code(), 129);
    assert!(result.stdout().is_none());
    assert!(result.stderr().is_none());
}

#[test]
fn streamed_success_carries_no_error_text() {
    let result = streamed_outcome(true, Some(0));
    assert!(!result.failed());
    assert!(result.stderr().is_none());
}

#[test]
fn missing_code_defaults_by_status() {
    assert_eq!(resolve_code(true, None), 0);
    assert_eq!(resolve_code(false, None), 1);
    assert_eq!(resolve_code(false, Some(7)), 7);
    assert_eq!(resolve_code(true, Some(3)), 3);
    assert_eq!(streamed_outcome(false, None).code(), 1);
    assert_eq!(streamed_outcome(true, None).code(), 0);
    assert_eq!(captured_outcome(false, None, Vec::new(), Vec::new()).code(), 1);
}

#[test]
fn status_flag_decides_the_variant_not_the_code() {
    let ok = streamed_outcome(true, Some(5));
    assert!(ok.is_ok());
    assert_eq!(ok.code(), 5);
    let err = streamed_outcome(false, Some(0));
    assert!(err.is_err());
    assert_eq!(err.code(), 0);
}

#[test]
fn captured_failure_carries_both_streams() {
    let result = captured_outcome(
        false,
        Some(1),
        Vec::new(),
        b"git: 'nosuch' is not a git command.\n".to_vec(),
    );
    assert!(result.failed());
    assert_eq!(result.code(), 1);
    assert_eq!(result.stdout(), Some(String::new()));
    assert_eq!(
        result.stderr(),
        Some("git: 'nosuch' is not a git command.\n".to_string())
    );
}

#[test]
fn captured_success_never_carries_error_text() {
    let result = captured_outcome(true, Some(0), b"out".to_vec(), b"warning".to_vec());
    assert!(!result.failed());
    assert_eq!(result.stdout(), Some("out".to_string()));
    assert!(result.stderr().is_none());
}

#[test]
fn captured_text_is_decoded_as_utf8() {
    let result = captured_outcome(true, Some(0), "h\u{e9}llo".as_bytes().to_vec(), Vec::new());
    assert_eq!(result.stdout(), Some("héllo".to_string()));
    assert_eq!(result.stdout().map(|s| s.chars().count()), Some(5));
}

#[test]
fn undecodable_stream_becomes_empty_text() {
    let result = captured_outcome(false, Some(2), vec![0xff, 0xfe], b"fatal".to_vec());
    assert_eq!(result.code(), 2);
    assert_eq!(result.stdout(), Some(String::new()));
    assert_eq!(result.stderr(), Some("fatal".to_string()));

    let result = captured_outcome(false, Some(2), b"partial".to_vec(), vec![0xc3]);
    assert_eq!(result.stdout(), Some("partial".to_string()));
    assert_eq!(result.stderr(), Some(String::new()));
}

#[test]
fn captured_outcome_of_text_substitutes_empty_text() {
    let result = captured_outcome_of_text(false, Some(128), None, Some("bad".to_string()));
    assert_eq!(result.stdout(), Some(String::new()));
    assert_eq!(result.stderr(), Some("bad".to_string()));
    assert_eq!(result.code(), 128);

    let result = captured_outcome_of_text(true, None, Some("ok".to_string()), None);
    assert_eq!(result.code(), 0);
    assert_eq!(result.stdout(), Some("ok".to_string()));
}

#[test]
fn accessors_read_either_variant() {
    let ok: Result<Success, Failure> = Ok(Success { stdout: Some("x".to_string()), code: 0 });
    assert!(!ok.failed());
    assert_eq!(ok.code(), 0);
    assert_eq!(ok.code(), ok.code());
    assert_eq!(ok.stdout(), Some("x".to_string()));
    assert!(ok.stderr().is_none());

    let err: Result<Success, Failure> = Err(Failure {
        stderr: Some("e".to_string()),
        stdout: None,
        code: 3,
    });
    assert!(err.failed());
    assert_eq!(err.code(), 3);
    assert!(err.stdout().is_none());
    assert_eq!(err.stderr(), Some("e".to_string()));
}
