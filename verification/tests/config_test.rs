use switchboard::config::{
    compose_exit_error, compose_start_error, decimal, default_klondike_url,
    server_klondike_url, status_report,
};
use switchboard::SwitchboardConfig;

fn pairs(v: &[(String, String)]) -> Vec<(&str, &str)> {
    v.iter().map(|(a, b)| (a.as_str(), b.as_str())).collect()
}

#[test]
fn empty_answers_leave_tokens_unset() {
    let cfg = SwitchboardConfig::from_answers(
        4080,
        "http://localhost:3000".to_string(),
        String::new(),
        "ghp_x".to_string(),
    );
    assert_eq!(cfg.port, 4080);
    assert_eq!(cfg.klondike_url, "http://localhost:3000");
    assert!(cfg.slack_token.is_none());
    assert_eq!(cfg.github_token.as_deref(), Some("ghp_x"));
}

#[test]
fn resolve_fills_defaults() {
    let cfg = SwitchboardConfig::resolve(None, None, None, None);
    assert_eq!(cfg.port, 4080);
    assert_eq!(cfg.klondike_url, "http://localhost:3000");
    assert!(cfg.slack_token.is_none());
    assert!(cfg.github_token.is_none());

    let cfg = SwitchboardConfig::resolve(
        Some(9000),
        Some("http://k".to_string()),
        Some("xoxb".to_string()),
        None,
    );
    assert_eq!(cfg.port, 9000);
    assert_eq!(cfg.klondike_url, "http://k");
    assert_eq!(cfg.slack_token.as_deref(), Some("xoxb"));
    assert!(cfg.github_token.is_none());
}

#[test]
fn compose_env_lists_set_tokens_only() {
    let cfg = SwitchboardConfig::resolve(None, None, None, None);
    assert_eq!(
        pairs(&cfg.compose_env()),
        vec![("SWITCHBOARD_PORT", "4080"), ("KLONDIKE_URL", "http://localhost:3000")]
    );

    let cfg = SwitchboardConfig::resolve(
        Some(80),
        Some("http://k".to_string()),
        Some("s".to_string()),
        Some("g".to_string()),
    );
    assert_eq!(
        pairs(&cfg.compose_env()),
        vec![
            ("SWITCHBOARD_PORT", "80"),
            ("KLONDIKE_URL", "http://k"),
            ("SLACK_TOKEN", "s"),
            ("GITHUB_TOKEN", "g"),
        ]
    );
}

#[test]
fn secret_files_one_per_token() {
    let cfg = SwitchboardConfig::resolve(None, None, None, Some("g".to_string()));
    assert_eq!(pairs(&cfg.secret_files()), vec![("github_token", "g")]);
    let cfg = SwitchboardConfig::resolve(None, None, Some("s".to_string()), Some("g".to_string()));
    assert_eq!(pairs(&cfg.secret_files()), vec![("slack_token", "s"), ("github_token", "g")]);
    let cfg = SwitchboardConfig::resolve(None, None, None, None);
    assert!(cfg.secret_files().is_empty());
}

#[test]
fn status_report_hides_tokens() {
    let cfg = SwitchboardConfig::resolve(None, None, Some("secret".to_string()), None);
    let lines = status_report(&Ok(cfg));
    assert_eq!(
        lines,
        vec![
            "Port:         4080",
            "Klondike URL: http://localhost:3000",
            "Slack token:  set",
            "GitHub token: not set",
            "",
        ]
    );
    assert!(lines.iter().all(|l| !l.contains("secret")));
}

#[test]
fn status_report_of_a_failed_load() {
    let lines = status_report(&Err("missing field".to_string()));
    assert_eq!(lines, vec!["Could not load config: missing field", ""]);
}

#[test]
fn decimal_text_of_ports() {
    assert_eq!(decimal(0), "0");
    assert_eq!(decimal(7), "7");
    assert_eq!(decimal(10), "10");
    assert_eq!(decimal(4080), "4080");
    assert_eq!(decimal(65535), "65535");
}

#[test]
fn server_address_and_messages() {
    assert_eq!(default_klondike_url(), "http://localhost:3000");
    assert_eq!(server_klondike_url(None), "http://localhost:3000");
    assert_eq!(server_klondike_url(Some("http://k".to_string())), "http://k");
    assert_eq!(compose_start_error("not found"), "failed to run docker compose: not found");
    assert_eq!(compose_exit_error("exit status: 1"), "docker compose exited with exit status: 1");
}
