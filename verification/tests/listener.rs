use komodo_logic::listener::{check_branch, is_whitespace, normalize_branch, Github};

#[test]
fn github_ref_heads_main_matches_main() {
    let body = r#"{"ref":"refs/heads/main"}"#;
    let result = Github::verify_branch(body, "main");
    assert!(result.is_ok());
}

#[test]
fn plain_main_matches_main() {
    let body = r#"{"ref":"main"}"#;
    let result = Github::verify_branch(body, "main");
    assert!(result.is_ok());
}

#[test]
fn feature_branch_does_not_match_main() {
    let body = r#"{"ref":"feature/test"}"#;
    let error = Github::verify_branch(body, "main").unwrap_err().message();
    assert_eq!(error, "request branch 'feature/test' does not match expected 'main'");
}

#[test]
fn expected_refs_heads_main_matches_payload_main() {
    let body = r#"{"ref":"main"}"#;
    let result = Github::verify_branch(body, "refs/heads/main");
    assert!(result.is_ok());
}

#[test]
fn normalize_branch_trims_and_strips_one_prefix() {
    assert_eq!(normalize_branch("  refs/heads/main \n"), "main");
    assert_eq!(normalize_branch("main"), "main");
    assert_eq!(normalize_branch("refs/heads/refs/heads/x"), "refs/heads/x");
    assert_eq!(normalize_branch("refs/tags/v1"), "refs/tags/v1");
}

#[test]
fn branch_check_compares_normalized_names() {
    assert!(check_branch(" refs/heads/dev", "dev ").is_ok());
    let e = check_branch("dev", "main").unwrap_err();
    assert_eq!(e.message(), "request branch 'dev' does not match expected 'main'");
}

#[test]
fn body_without_ref_is_rejected() {
    let e = Github::extract_branch(r#"{"before":"x"}"#).unwrap_err();
    assert_eq!(e.message(), "webhook body has no string 'ref' field");
    assert!(Github::extract_branch("not json").is_err());
    assert!(Github::extract_branch(r#"{"ref":3}"#).is_err());
    assert_eq!(Github::extract_branch(r#"{"ref":"refs/heads/a"}"#).unwrap(), "refs/heads/a");
}

#[test]
fn unicode_white_space_is_trimmed() {
    assert!(is_whitespace(' '));
    assert!(is_whitespace('\u{3000}'));
    assert!(is_whitespace('\u{85}'));
    assert!(!is_whitespace('r'));
    assert!(!is_whitespace('\u{200B}'));
    assert_eq!(normalize_branch("\u{2003}refs/heads/main\u{a0}"), "main");
    for c in ['\t', '\n', ' ', '\u{2028}', 'a', '/', '\u{feff}'] {
        assert_eq!(is_whitespace(c), c.is_whitespace());
    }
}

#[test]
fn branch_forms_normalize_alike() {
    for x in ["main", "feature/x", ""] {
        assert_eq!(normalize_branch(&format!("refs/heads/{x}")), x);
        assert_eq!(normalize_branch(&format!("  {x}\n")), x);
        assert_eq!(normalize_branch(x), x);
    }
}
