use komodo_logic::command::CommandOutput;
use komodo_logic::docker::{
    docker_login_args, docker_login_error_output, docker_login_outcome, docker_login_required,
    is_delimited_short_token_fragment, is_non_alphanumeric_boundary, longest_token_fragment_match,
    pull_image_command, redact_docker_login_token_fragments, sanitize_docker_login_output,
    stop_container_command,
};

fn chars(s: &str) -> Vec<char> {
    s.chars().collect()
}

#[test]
fn docker_login_args_do_not_include_token() {
    let token = "abc$def' ghi`jkl";
    let args = docker_login_args("registry.example.com", "user");
    assert!(!args.join(" ").contains(token));
    assert!(args.contains(&"--password-stdin".to_string()));
    assert_eq!(
        args,
        vec!["login", "registry.example.com", "--username", "user", "--password-stdin"]
    );
}

#[test]
fn docker_login_output_redacts_delimited_short_token_fragments() {
    let redacted = redact_docker_login_token_fragments(
        "single:a\npair:bc\ntriple:123\nquoted:\"XY\"\nword:stacktrace\n",
        "abc123XYZ",
    );
    assert_eq!(
        redacted,
        "single:[REDACTED]\npair:[REDACTED]\ntriple:[REDACTED]\nquoted:\"[REDACTED]\"\nword:stacktrace\n"
    );
}

#[test]
fn long_token_fragments_are_redacted_anywhere() {
    assert_eq!(
        redact_docker_login_token_fragments("xxabc123yy", "abc123XYZ"),
        "xx[REDACTED]yy"
    );
    assert_eq!(redact_docker_login_token_fragments("keep me", ""), "keep me");
    assert_eq!(redact_docker_login_token_fragments("token=abcd!", "abcd"), "token=[REDACTED]!");
}

#[test]
fn token_fragment_helpers() {
    assert_eq!(longest_token_fragment_match(&chars("c123Xq"), &chars("abc123XYZ")), 5);
    assert_eq!(longest_token_fragment_match(&chars("q"), &chars("abc")), 0);
    assert!(is_non_alphanumeric_boundary(None));
    assert!(is_non_alphanumeric_boundary(Some(':')));
    assert!(!is_non_alphanumeric_boundary(Some('a')));
    let text = chars("x:ab:y");
    assert!(is_delimited_short_token_fragment(&text, 2, 2));
    assert!(!is_delimited_short_token_fragment(&text, 2, 0));
    assert!(!is_delimited_short_token_fragment(&chars("xab"), 1, 2));
}

#[test]
fn sanitizing_keeps_exit_code() {
    let out = CommandOutput { code: Some(1), stdout: "pw abc123".into(), stderr: "err abc123".into() };
    let s = sanitize_docker_login_output(out, "abc123");
    assert_eq!(s.code, Some(1));
    assert_eq!(s.stdout, "pw [REDACTED]");
    assert_eq!(s.stderr, "err [REDACTED]");
}

#[test]
fn failed_login_reports_redacted_lines() {
    let out = CommandOutput {
        code: Some(1),
        stdout: "line one\n\nuses secret99\n".into(),
        stderr: "denied: secret99\n".into(),
    };
    let e = docker_login_outcome("registry.example.com", out, "secret99").unwrap_err();
    assert_eq!(
        e.chain,
        vec![
            "Registry registry.example.com login error".to_string(),
            "line one".to_string(),
            "uses [REDACTED]".to_string(),
            "denied: [REDACTED]".to_string(),
            "End of trace".to_string(),
        ]
    );
    let ok = CommandOutput { code: Some(0), stdout: String::new(), stderr: String::new() };
    assert_eq!(docker_login_outcome("r", ok, "t").unwrap(), true);
}

#[test]
fn login_preconditions_and_error_output() {
    assert!(docker_login_required("registry", "me"));
    assert!(!docker_login_required("", "me"));
    assert!(!docker_login_required("registry", ""));
    let out = docker_login_error_output("Failed to start docker login command".into());
    assert!(out.code.is_none());
    assert!(!out.success());
    assert_eq!(out.stderr, "Failed to start docker login command");
}

#[test]
fn stop_and_pull_commands() {
    assert_eq!(stop_container_command("web", None, None), "docker stop web");
    assert_eq!(
        stop_container_command("web", Some("SIGINT"), Some(-3)),
        "docker stop --signal SIGINT --time -3 web"
    );
    assert_eq!(pull_image_command("nginx:latest"), "docker pull nginx:latest");
}
