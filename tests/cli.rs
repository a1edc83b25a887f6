use rtop::cli::{parse_seconds, Cli};

#[test]
fn test_parse_duration_seconds() {
    assert_eq!(
        Cli::parse_duration("30s").unwrap(),
        std::time::Duration::from_secs(30)
    );
    assert_eq!(
        Cli::parse_duration("60s").unwrap(),
        std::time::Duration::from_secs(60)
    );
}

#[test]
fn test_parse_duration_minutes() {
    assert_eq!(
        Cli::parse_duration("5m").unwrap(),
        std::time::Duration::from_secs(300)
    );
    assert_eq!(
        Cli::parse_duration("30m").unwrap(),
        std::time::Duration::from_secs(1800)
    );
}

#[test]
fn test_parse_duration_hours() {
    assert_eq!(
        Cli::parse_duration("1h").unwrap(),
        std::time::Duration::from_secs(3600)
    );
    assert_eq!(
        Cli::parse_duration("2h").unwrap(),
        std::time::Duration::from_secs(7200)
    );
}

#[test]
fn test_parse_duration_no_suffix() {
    assert_eq!(
        Cli::parse_duration("45").unwrap(),
        std::time::Duration::from_secs(45)
    );
}

#[test]
fn test_parse_duration_with_whitespace() {
    assert_eq!(
        Cli::parse_duration("  10s  ").unwrap(),
        std::time::Duration::from_secs(10)
    );
}

#[test]
fn test_parse_duration_invalid() {
    assert!(Cli::parse_duration("invalid").is_err());
    assert!(Cli::parse_duration("abc").is_err());
    assert!(Cli::parse_duration("").is_err());
}

#[test]
fn parse_seconds_edge_cases() {
    assert_eq!(parse_seconds("+7").unwrap(), 7);
    assert_eq!(parse_seconds("3ss").unwrap(), 3);
    assert_eq!(parse_seconds("\t2h\n").unwrap(), 7200);
    assert!(parse_seconds("1 s").is_err());
    assert!(parse_seconds("s").is_err());
    assert!(parse_seconds("-1").is_err());
    assert_eq!(parse_seconds("18446744073709551615").unwrap(), u64::MAX);
    assert!(parse_seconds("18446744073709551616").is_err());
    assert!(parse_seconds("5124095576030432h").is_err());
}
