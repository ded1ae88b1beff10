use komodo_logic::command::{
    sanitize_command_log,
    lex_command, output_into_log, program_and_args, sanitize_log, shell, CommandOutput, KomodoCommandMode,
    Log, MergedCommandOutput,
};

#[test]
fn timeouts_and_spawn_errors_are_failures() {
    let out = CommandOutput::from_timeout(100);
    assert!(!out.success());
    assert!(out.stderr.contains("Command timed out"));
    assert_eq!(out.stderr, "Command timed out after 100 ms");
    let merged = MergedCommandOutput::from_timeout(2500);
    assert_eq!(merged.output.stderr, "Command timed out after 2500 ms");
    assert_eq!(merged.merged_output, "");
    let err = MergedCommandOutput::from_err("No such file".into());
    assert!(err.output.code.is_none());
    assert_eq!(err.output.stderr, "No such file");
    let _ = KomodoCommandMode::Multiline;
}

#[test]
fn exit_code_zero_is_success() {
    let ok = CommandOutput { code: Some(0), stdout: "ok".into(), stderr: String::new() };
    assert!(ok.success());
    let failed = CommandOutput { code: Some(2), stdout: String::new(), stderr: "bad".into() };
    assert!(!failed.success());
    let log = output_into_log("Stage", "printf ok".into(), 17, ok);
    assert_eq!(log.stage, "Stage");
    assert_eq!(log.command, "printf ok");
    assert_eq!(log.stdout, "ok");
    assert!(log.success);
    assert_eq!(log.start_ts, 17);
    assert!(log.end_ts >= 17);
}

#[test]
fn commands_are_lexed_like_a_shell() {
    assert_eq!(lex_command("docker compose -p 'my proj' up").ok().unwrap(), vec!["docker", "compose", "-p", "my proj", "up"]);
    let empty = lex_command("   ").err().unwrap();
    assert_eq!(empty.stderr, "Command lexed into empty args");
    assert!(lex_command("echo 'unterminated").is_err());
    assert!(program_and_args(Some(vec![])).is_err());
    assert!(program_and_args(None).is_err());
    assert_eq!(program_and_args(Some(vec!["ls".to_string()])).ok().unwrap(), vec!["ls"]);
}

#[test]
fn shell_preference_order() {
    assert_eq!(shell(true, true, true, true), "/bin/bash");
    assert_eq!(shell(false, true, true, true), "/usr/bin/bash");
    assert_eq!(shell(false, false, true, true), "/bin/sh");
    assert_eq!(shell(false, false, false, true), "/usr/bin/sh");
    assert_eq!(shell(false, false, false, false), "sh");
}

#[test]
fn logs_are_sanitized() {
    let log = Log {
        stage: "Deploy".into(),
        command: "login -p hunter2".into(),
        stdout: "using hunter2".into(),
        stderr: "hunter2 rejected".into(),
        success: false,
        start_ts: 1,
        end_ts: 2,
    };
    let clean = sanitize_log(log, &[("hunter2".to_string(), "PASSWORD".to_string())]);
    assert_eq!(clean.command, "login -p <PASSWORD>");
    assert_eq!(clean.stdout, "using <PASSWORD>");
    assert_eq!(clean.stderr, "<PASSWORD> rejected");
    assert_eq!(clean.stage, "Deploy");
    assert!(!clean.success);
    let simple = Log::simple("S".into(), "m".into(), 4);
    assert!(simple.success);
    assert_eq!(simple.stdout, "m");
    let error = Log::error("S".into(), "bad".into(), 4);
    assert!(!error.success);
    assert_eq!(error.stderr, "bad");
}

#[test]
fn empty_secrets_surround_every_character() {
    let log = Log {
        stage: "S".into(),
        command: "ab".into(),
        stdout: String::new(),
        stderr: "x".into(),
        success: true,
        start_ts: 1,
        end_ts: 2,
    };
    let clean = sanitize_command_log(Some(log), &[(String::new(), "E".to_string())]).unwrap();
    assert_eq!(clean.command, "<E>a<E>b<E>");
    assert_eq!(clean.stdout, "<E>");
    assert_eq!(clean.stderr, "<E>x<E>");
    assert!(sanitize_command_log(None, &[]).is_none());
}
