use fks_config::{generate, load, AppConfig, ConfigError, Real};

fn max_loss(config: &AppConfig) -> Real {
    let size: f64 = config.account.size.as_str().parse().unwrap();
    let risk: f64 = config.account.risk_per_trade.as_str().parse().unwrap();
    Real::from_text(&(size * risk).to_string()).unwrap()
}

fn render(yaml: &str, runtime: Option<&str>) -> String {
    let config = load(yaml).unwrap();
    generate(&config, &max_loss(&config), runtime)
}

#[test]
fn generates_env_from_yaml() {
    let yaml = "account:\n  size: 100000\n  risk_per_trade: 0.02\nnetwork:\n  master_port: 9000\nruntimes:\n  - python\n";
    let env_body = render(yaml, Some("python"));
    assert!(env_body.contains("ACCOUNT_SIZE=100000"));
    assert!(env_body.contains("MAX_LOSS_PER_TRADE=2000"));
    assert!(env_body.contains("TARGET_RUNTIME=python"));
}

#[test]
fn error_on_missing_file() {
    let missing = "/this/should/not/exist/never.yaml";
    let cause = "No such file or directory (os error 2)";
    let err = ConfigError::Read { location: missing.to_string(), cause: cause.to_string() };
    assert!(err.message().contains("reading input config"));
    assert_eq!(err.message(), "reading input config: /this/should/not/exist/never.yaml");
}

#[test]
fn renders_the_whole_file_in_fixed_order() {
    let yaml = "account: {size: 100000, risk_per_trade: 0.02}\nnetwork: {master_port: 9000}\nruntimes: [python]\n";
    assert_eq!(
        render(yaml, Some("python")),
        "ACCOUNT_SIZE=100000\nRISK_PER_TRADE=0.02\nMAX_LOSS_PER_TRADE=2000\nMASTER_PORT=9000\nSIM_LATENCY_MS=\nTARGET_RUNTIME=python\n"
    );
}

#[test]
fn scenario_has_no_gate_line() {
    let yaml = "account: {size: 100000, risk_per_trade: 0.02}\nnetwork: {master_port: 9000}\nruntimes: [python]\n";
    let out = render(yaml, Some("python"));
    for expected in ["ACCOUNT_SIZE=100000", "MAX_LOSS_PER_TRADE=2000", "MASTER_PORT=9000", "SIM_LATENCY_MS=", "TARGET_RUNTIME=python"] {
        assert!(out.lines().any(|line| line == expected));
    }
    assert!(!out.contains("VIX_GATE"));
}

#[test]
fn renders_every_optional_line() {
    let yaml = "account: {size: 2500.5, risk_per_trade: 0.5}\nnetwork: {master_port: 0, sim_latency_ms: 15}\nruntimes: [rust, node]\nvix_gate: 22.5\n";
    assert_eq!(
        render(yaml, Some("node")),
        "ACCOUNT_SIZE=2500.5\nRISK_PER_TRADE=0.5\nMAX_LOSS_PER_TRADE=1250.25\nMASTER_PORT=0\nSIM_LATENCY_MS=15\nVIX_GATE=22.5\nTARGET_RUNTIME=node\n"
    );
}

#[test]
fn absent_latency_keeps_its_key() {
    let yaml = "account: {size: 1, risk_per_trade: 1}\nnetwork: {master_port: 65535}\nruntimes: []\n";
    let out = render(yaml, None);
    assert_eq!(out.lines().filter(|line| *line == "SIM_LATENCY_MS=").count(), 1);
    assert_eq!(out.lines().nth(4), Some("SIM_LATENCY_MS="));
}

#[test]
fn null_latency_is_absent() {
    let yaml = "account: {size: 1, risk_per_trade: 1}\nnetwork: {master_port: 1, sim_latency_ms: null}\nruntimes: []\nvix_gate: ~\n";
    let config = load(yaml).unwrap();
    assert_eq!(config.network.sim_latency_ms, None);
    assert_eq!(config.vix_gate, None);
    assert_eq!(render(yaml, None), "ACCOUNT_SIZE=1\nRISK_PER_TRADE=1\nMAX_LOSS_PER_TRADE=1\nMASTER_PORT=1\nSIM_LATENCY_MS=\n");
}

#[test]
fn absent_gate_has_no_line() {
    let yaml = "account: {size: 1, risk_per_trade: 1}\nnetwork: {master_port: 1}\nruntimes: []\n";
    assert!(!render(yaml, Some("rust")).contains("VIX_GATE"));
    let with_gate = "account: {size: 1, risk_per_trade: 1}\nnetwork: {master_port: 1}\nruntimes: []\nvix_gate: 30\n";
    assert_eq!(render(with_gate, None).lines().nth(5), Some("VIX_GATE=30"));
}

#[test]
fn label_gives_exactly_one_line() {
    let yaml = "account: {size: 1, risk_per_trade: 1}\nnetwork: {master_port: 1}\nruntimes: [rust]\n";
    let with = render(yaml, Some("python"));
    assert_eq!(with.lines().filter(|line| line.starts_with("TARGET_RUNTIME=")).count(), 1);
    assert_eq!(with.lines().last(), Some("TARGET_RUNTIME=python"));
    let without = render(yaml, None);
    assert_eq!(without.lines().filter(|line| line.starts_with("TARGET_RUNTIME")).count(), 0);
}

#[test]
fn label_is_free_text() {
    let yaml = "account: {size: 1, risk_per_trade: 1}\nnetwork: {master_port: 1}\nruntimes: [rust]\n";
    assert_eq!(render(yaml, Some("go 1.22")).lines().last(), Some("TARGET_RUNTIME=go 1.22"));
    assert_eq!(render(yaml, Some("")).lines().last(), Some("TARGET_RUNTIME="));
}

#[test]
fn rendering_twice_gives_the_same_text() {
    let yaml = "account: {size: 12345.678, risk_per_trade: 0.015}\nnetwork: {master_port: 8080, sim_latency_ms: 3}\nruntimes: [python, rust]\nvix_gate: 18.25\n";
    assert_eq!(render(yaml, Some("rust")), render(yaml, Some("rust")));
    assert_eq!(load(yaml), load(yaml));
}

#[test]
fn max_loss_line_holds_the_product() {
    let yaml = "account: {size: 50000, risk_per_trade: 0.01}\nnetwork: {master_port: 1}\nruntimes: []\n";
    let out = render(yaml, None);
    assert_eq!(out.lines().nth(2), Some("MAX_LOSS_PER_TRADE=500"));
    let inexact = "account: {size: 0.1, risk_per_trade: 0.2}\nnetwork: {master_port: 1}\nruntimes: []\n";
    let expected = format!("MAX_LOSS_PER_TRADE={}", 0.1_f64 * 0.2_f64);
    assert_eq!(render(inexact, None).lines().nth(2), Some(expected.as_str()));
}

#[test]
fn numbers_are_written_without_exponent() {
    let yaml = "account: {size: 1e3, risk_per_trade: 2.50}\nnetwork: {master_port: 1}\nruntimes: []\n";
    let out = render(yaml, None);
    assert_eq!(out.lines().next(), Some("ACCOUNT_SIZE=1000"));
    assert_eq!(out.lines().nth(1), Some("RISK_PER_TRADE=2.5"));
    assert_eq!(out.lines().nth(2), Some("MAX_LOSS_PER_TRADE=2500"));
}

#[test]
fn lines_are_the_text_split_at_line_feeds() {
    let yaml = "account: {size: 2500.5, risk_per_trade: 0.5}\nnetwork: {master_port: 0, sim_latency_ms: 15}\nruntimes: [rust, node]\nvix_gate: 22.5\n";
    let config = load(yaml).unwrap();
    let loss = max_loss(&config);
    let lines = fks_config::env_lines(&config, &loss, Some("node"));
    assert_eq!(lines.len(), 7);
    let text = generate(&config, &loss, Some("node"));
    assert_eq!(text.lines().collect::<Vec<_>>(), lines);
    assert!(text.ends_with('\n') && !text.ends_with("\n\n"));
    assert_eq!(fks_config::env_lines(&config, &loss, None).len(), 6);
}

#[test]
fn label_with_a_line_feed_is_written_as_given() {
    let yaml = "account: {size: 1, risk_per_trade: 1}\nnetwork: {master_port: 1}\nruntimes: []\n";
    let config = load(yaml).unwrap();
    let loss = max_loss(&config);
    let lines = fks_config::env_lines(&config, &loss, Some("a\nVIX_GATE=9"));
    assert_eq!(lines.len(), 6);
    assert_eq!(lines[5], "TARGET_RUNTIME=a\nVIX_GATE=9");
    let text = generate(&config, &loss, Some("a\nVIX_GATE=9"));
    assert_eq!(text.lines().count(), 7);
}

#[test]
fn long_numbers_are_rendered_in_full() {
    let yaml = "account: {size: 1.0e300, risk_per_trade: 0.000001}\nnetwork: {master_port: 1}\nruntimes: []\n";
    let out = render(yaml, None);
    let size = out.lines().next().unwrap();
    assert_eq!(size.len(), "ACCOUNT_SIZE=".len() + 301);
    assert!(size.ends_with("000"));
    assert_eq!(out.lines().nth(1), Some("RISK_PER_TRADE=0.000001"));
}
