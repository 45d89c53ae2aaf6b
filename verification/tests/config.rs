use infra_ccu_info::parse_args;
use infra_ccu_info::parse_i64;
use infra_ccu_info::ConfigError;

fn strings(words: &[&str]) -> Vec<String> {
    words.iter().map(|w| w.to_string()).collect()
}

#[test]
fn parses_plain_integers() {
    assert_eq!(parse_i64("42"), Some(42));
    assert_eq!(parse_i64("0"), Some(0));
    assert_eq!(parse_i64("042"), Some(42));
    assert_eq!(parse_i64("+7"), Some(7));
    assert_eq!(parse_i64("-13"), Some(-13));
    assert_eq!(parse_i64("-0"), Some(0));
}

#[test]
fn parses_the_extremes() {
    assert_eq!(parse_i64("9223372036854775807"), Some(i64::MAX));
    assert_eq!(parse_i64("-9223372036854775808"), Some(i64::MIN));
    assert_eq!(parse_i64("9223372036854775808"), None);
    assert_eq!(parse_i64("-9223372036854775809"), None);
    assert_eq!(parse_i64("99999999999999999999999999"), None);
}

#[test]
fn rejects_non_numbers() {
    assert_eq!(parse_i64(""), None);
    assert_eq!(parse_i64("-"), None);
    assert_eq!(parse_i64("+"), None);
    assert_eq!(parse_i64("abc"), None);
    assert_eq!(parse_i64("4 2"), None);
    assert_eq!(parse_i64(" 42"), None);
    assert_eq!(parse_i64("42x"), None);
    assert_eq!(parse_i64("4.2"), None);
}

#[test]
fn loads_from_flags() {
    let args = strings(&["--ccu", "42", "--env", "staging"]);
    let cfg = parse_args(&args, None, None).unwrap();
    assert_eq!(cfg.ccu, 42);
    assert_eq!(cfg.env, "staging");
}

#[test]
fn loads_attached_flag_forms() {
    let args = strings(&["--ccu=42", "--env=staging"]);
    let cfg = parse_args(&args, None, None).unwrap();
    assert_eq!(cfg.ccu, 42);
    assert_eq!(cfg.env, "staging");
}

#[test]
fn falls_back_to_environment_variables() {
    let args = strings(&[]);
    let cfg = parse_args(&args, Some("17".to_string()), Some("prod".to_string())).unwrap();
    assert_eq!(cfg.ccu, 17);
    assert_eq!(cfg.env, "prod");
}

#[test]
fn flags_win_over_variables() {
    let args = strings(&["--ccu", "1", "--env", "dev"]);
    let cfg = parse_args(&args, Some("2".to_string()), Some("prod".to_string())).unwrap();
    assert_eq!(cfg.ccu, 1);
    assert_eq!(cfg.env, "dev");
}

#[test]
fn missing_ccu_everywhere_is_an_error() {
    let args = strings(&["--env", "staging"]);
    assert_eq!(parse_args(&args, None, None).unwrap_err(), ConfigError::MissingCcu);
}

#[test]
fn missing_env_everywhere_is_an_error() {
    let args = strings(&["--ccu", "42"]);
    assert_eq!(parse_args(&args, None, None).unwrap_err(), ConfigError::MissingEnv);
}

#[test]
fn a_non_numeric_ccu_is_an_error() {
    let args = strings(&["--ccu", "many", "--env", "staging"]);
    assert_eq!(parse_args(&args, None, None).unwrap_err(), ConfigError::InvalidCcu);
    let none = strings(&[]);
    assert_eq!(
        parse_args(&none, Some("many".to_string()), Some("staging".to_string())).unwrap_err(),
        ConfigError::InvalidCcu
    );
}

#[test]
fn an_unknown_argument_is_an_error() {
    let args = strings(&["--ccu", "42", "--verbose"]);
    assert_eq!(parse_args(&args, None, None).unwrap_err(), ConfigError::UnknownArgument);
    let short = strings(&["x"]);
    assert_eq!(parse_args(&short, None, None).unwrap_err(), ConfigError::UnknownArgument);
}

#[test]
fn a_trailing_flag_is_an_error() {
    let args = strings(&["--env", "staging", "--ccu"]);
    assert_eq!(parse_args(&args, None, None).unwrap_err(), ConfigError::MissingFlagValue);
}

#[test]
fn a_repeated_flag_is_an_error() {
    let args = strings(&["--ccu", "1", "--ccu", "2", "--env", "staging"]);
    assert_eq!(parse_args(&args, None, None).unwrap_err(), ConfigError::DuplicateFlag);
    let mixed = strings(&["--env=a", "--env", "b"]);
    assert_eq!(parse_args(&mixed, None, None).unwrap_err(), ConfigError::DuplicateFlag);
}

#[test]
fn errors_carry_messages() {
    assert!(ConfigError::MissingCcu.message().contains("CCU"));
    assert!(ConfigError::MissingEnv.message().contains("ENV"));
    assert!(ConfigError::InvalidCcu.message().contains("integer"));
}
