use fks_config::decimal::decimal_string;
use fks_config::{ConfigError, Real, RuntimeKind};

#[test]
fn runtime_names_are_lower_case() {
    assert_eq!(RuntimeKind::Python.name(), "python");
    assert_eq!(RuntimeKind::Rust.name(), "rust");
    assert_eq!(RuntimeKind::Node.name(), "node");
}

#[test]
fn runtime_names_round_trip() {
    for kind in [RuntimeKind::Python, RuntimeKind::Rust, RuntimeKind::Node] {
        assert_eq!(RuntimeKind::from_name(kind.name()), Some(kind));
    }
}

#[test]
fn runtime_enumeration_is_closed() {
    for name in ["", "Python", "PYTHON", "go", "rust ", "nodejs", "pytho"] {
        assert_eq!(RuntimeKind::from_name(name), None);
    }
}

#[test]
fn decimal_notation_of_integers() {
    assert_eq!(decimal_string(0), "0");
    assert_eq!(decimal_string(7), "7");
    assert_eq!(decimal_string(10), "10");
    assert_eq!(decimal_string(9000), "9000");
    assert_eq!(decimal_string(65535), "65535");
    assert_eq!(decimal_string(1000000007), "1000000007");
    assert_eq!(decimal_string(u64::MAX), "18446744073709551615");
    for n in [1u64, 9, 11, 99, 100, 101, 12345, 4294967296] {
        assert_eq!(decimal_string(n), n.to_string());
    }
}

#[test]
fn real_notations_are_accepted() {
    for text in ["0", "7", "100000", "0.02", "2000", "007", "1.50", "-3", "-0.5", "-0", "NaN", "inf", "-inf"] {
        assert_eq!(Real::from_text(text).unwrap().as_str(), text);
    }
}

#[test]
fn other_texts_are_no_reals() {
    for text in ["", "-", ".", ".5", "5.", "1..2", "1.2.3", "--1", "+1", "1e3", "1,5", " 1", "1 ", "abc", "nan", "Inf", "-NaN", "1\n", "1=2", "-.5", "-5."] {
        assert_eq!(Real::from_text(text), None, "{:?}", text);
    }
}

#[test]
fn every_double_has_a_notation() {
    let values = [0.0_f64, -0.0, 1.0, 0.02, 2000.0, 0.1 + 0.2, 1e21, 1e300, 5e-324, f64::MAX, f64::MIN, f64::EPSILON, f64::NAN, f64::INFINITY, f64::NEG_INFINITY, 123456.789];
    for value in values {
        let text = value.to_string();
        let real = Real::from_text(&text).unwrap();
        assert_eq!(real.as_str(), text);
        let back: f64 = real.as_str().parse().unwrap();
        assert!(back == value || (back.is_nan() && value.is_nan()));
    }
}

#[test]
fn real_clone_keeps_the_notation() {
    let real = Real::from_text("27.5").unwrap();
    assert_eq!(real.clone(), real);
}

#[test]
fn messages_name_the_place() {
    let read = ConfigError::Read { location: "config/sim.yaml".to_string(), cause: "permission denied".to_string() };
    assert_eq!(read.message(), "reading input config: config/sim.yaml");
    let write = ConfigError::Write { location: ".env.generated".to_string(), cause: "read-only file system".to_string() };
    assert_eq!(write.message(), "writing env output: .env.generated");
    let parse = ConfigError::Parse { path: "runtimes[2]".to_string(), cause: "invalid type: number, expected a runtime name".to_string() };
    assert_eq!(parse.message(), "parsing yaml at runtimes[2]: invalid type: number, expected a runtime name");
    assert_eq!(ConfigError::EmptyDocument.message(), "empty yaml");
}
