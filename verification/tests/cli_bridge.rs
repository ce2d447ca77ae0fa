use ipckit::cli_bridge::parsers::{
    read_fraction, read_percentage, CompositeParser, FractionParser, ParserKind, PercentageParser,
    ProgressBarParser,
};
use ipckit::cli_bridge::{CliBridgeConfig, CommandOutput, OutputType, ProgressInfo, ProgressParser};

#[test]
fn test_percentage_parser() {
    let parser = PercentageParser;

    assert_eq!(parser.parse("50%").map(|p| p.percentage()), Some(50));
    assert_eq!(parser.parse("Progress: 75%").map(|p| p.percentage()), Some(75));
    assert_eq!(parser.parse("Downloading... 100%").map(|p| p.percentage()), Some(100));
    assert_eq!(parser.parse("No progress here").map(|p| p.percentage()), None);
}

#[test]
fn test_percentage_parser_edge_cases() {
    let parser = PercentageParser;

    // Edge cases
    assert_eq!(parser.parse("0%").map(|p| p.percentage()), Some(0));
    assert_eq!(parser.parse("1%").map(|p| p.percentage()), Some(1));
    assert_eq!(parser.parse("99%").map(|p| p.percentage()), Some(99));

    // Values over 100 should be capped
    assert_eq!(parser.parse("150%").map(|p| p.percentage()), Some(100));

    // Multiple percentages - should match first
    let info = parser.parse("Step 1: 25% complete, overall: 50%");
    assert_eq!(info.map(|p| p.percentage()), Some(25));
}

#[test]
fn test_fraction_parser() {
    let parser = FractionParser;

    let info = parser.parse("5/10").unwrap();
    assert_eq!(info.current, 5);
    assert_eq!(info.total, 10);
    assert_eq!(info.percentage(), 50);

    let info = parser.parse("[3/4] Installing...").unwrap();
    assert_eq!(info.current, 3);
    assert_eq!(info.total, 4);
    assert_eq!(info.percentage(), 75);

    assert!(parser.parse("No fraction").is_none());
}

#[test]
fn test_fraction_parser_edge_cases() {
    let parser = FractionParser;

    // Zero cases
    let info = parser.parse("0/10").unwrap();
    assert_eq!(info.percentage(), 0);

    let info = parser.parse("10/10").unwrap();
    assert_eq!(info.percentage(), 100);

    // Division by zero protection
    let info = parser.parse("5/0").unwrap();
    assert_eq!(info.percentage(), 0);

    // Spaces around slash
    let info = parser.parse("3 / 5").unwrap();
    assert_eq!(info.current, 3);
    assert_eq!(info.total, 5);

    // Large numbers
    let info = parser.parse("999/1000").unwrap();
    assert_eq!(info.percentage(), 99);
}

#[test]
fn test_progress_bar_parser() {
    let parser = ProgressBarParser;

    assert_eq!(parser.parse("[=====>    ] 50%").map(|p| p.percentage()), Some(50));
    assert_eq!(parser.parse("[##########] 100%").map(|p| p.percentage()), Some(100));
}

#[test]
fn test_progress_bar_parser_variants() {
    let parser = ProgressBarParser;

    // Different bar characters
    assert_eq!(parser.parse("[----------] 0%").map(|p| p.percentage()), Some(0));
    assert_eq!(parser.parse("[###-------] 30%").map(|p| p.percentage()), Some(30));
    assert_eq!(parser.parse("[>         ] 10%").map(|p| p.percentage()), Some(10));
}

#[test]
fn test_composite_parser() {
    let parser = CompositeParser::default_all();

    assert_eq!(parser.parse("50%").map(|p| p.percentage()), Some(50));
    assert_eq!(parser.parse("5/10").map(|p| p.percentage()), Some(50));
    assert_eq!(parser.parse("[=====>    ] 50%").map(|p| p.percentage()), Some(50));
}

#[test]
fn test_composite_parser_priority() {
    let parser = CompositeParser::default_all();

    // Percentage parser has priority
    let info = parser.parse("Step 3/5: 60% complete");
    assert_eq!(info.map(|p| p.percentage()), Some(60));

    // When no percentage, fraction is used
    let info = parser.parse("Processing file 3/5");
    assert_eq!(info.map(|p| p.percentage()), Some(60));
}

#[test]
fn test_composite_parser_no_match() {
    let parser = CompositeParser::default_all();
    assert!(parser.parse("Just some text").is_none());
    assert!(parser.parse("").is_none());
}

#[test]
fn test_custom_composite_parser() {
    let parser = CompositeParser::new().add(FractionParser).add(PercentageParser);

    // Fraction has priority now
    let info = parser.parse("Step 3/5: 60% complete");
    assert_eq!(info.map(|p| p.percentage()), Some(60)); // 3/5 = 60%
}

#[test]
fn test_progress_info() {
    let info = ProgressInfo::new(50, 100);
    assert_eq!(info.percentage(), 50);

    let info = ProgressInfo::new(0, 0);
    assert_eq!(info.percentage(), 0);

    let info = ProgressInfo::with_message(75, 100, "Almost done");
    assert_eq!(info.percentage(), 75);
    assert_eq!(info.message, Some("Almost done".to_string()));
}

#[test]
fn test_progress_info_edge_cases() {
    // Zero total
    let info = ProgressInfo::new(50, 0);
    assert_eq!(info.percentage(), 0);

    // Current > Total
    let info = ProgressInfo::new(150, 100);
    assert_eq!(info.percentage(), 100);

    // Large numbers
    let info = ProgressInfo::new(500000, 1000000);
    assert_eq!(info.percentage(), 50);
}

#[test]
fn test_cli_bridge_config() {
    let config = CliBridgeConfig::default();
    assert!(config.auto_register);
    assert!(config.capture_stdout);
    assert!(config.capture_stderr);

    let config = CliBridgeConfig::with_server("/tmp/test.sock");
    assert_eq!(config.server_url, "/tmp/test.sock");

    let config = CliBridgeConfig::default().no_auto_register();
    assert!(!config.auto_register);
}

#[test]
fn test_cli_bridge_config_builder() {
    let config = CliBridgeConfig::default().no_auto_register().progress_parser(PercentageParser);

    assert!(!config.auto_register);
    assert!(config.progress_parser.is_some());
    assert_eq!(config.progress_parser.unwrap().parse("at 12%").map(|p| p.current), Some(12));
}

#[test]
fn test_cli_bridge_config_debug() {
    let config = CliBridgeConfig::default();
    let debug_str = format!("{:?}", config);
    assert!(debug_str.contains("CliBridgeConfig"));
    assert!(debug_str.contains("auto_register"));
}

#[test]
fn test_command_output_debug() {
    let output = CommandOutput {
        exit_code: 0,
        stdout: "hello".to_string(),
        stderr: String::new(),
        duration: 100,
    };

    let debug_str = format!("{:?}", output);
    assert!(debug_str.contains("exit_code"));
    assert!(debug_str.contains("0"));
}

#[test]
fn test_output_type_equality() {
    assert_eq!(OutputType::Stdout, OutputType::Stdout);
    assert_eq!(OutputType::Stderr, OutputType::Stderr);
    assert_ne!(OutputType::Stdout, OutputType::Stderr);
}

#[test]
fn test_output_type_debug() {
    assert_eq!(format!("{:?}", OutputType::Stdout), "Stdout");
    assert_eq!(format!("{:?}", OutputType::Stderr), "Stderr");
}

#[test]
fn percentage_does_not_overflow() {
    assert_eq!(ProgressInfo::new(u64::MAX, 1).percentage(), 100);
    assert_eq!(ProgressInfo::new(u64::MAX, u64::MAX).percentage(), 100);
    assert_eq!(ProgressInfo::new(u64::MAX / 2, u64::MAX).percentage(), 49);
    assert_eq!(ProgressInfo::new(1, 3).percentage(), 33);
    assert_eq!(ProgressInfo::new(2, 3).percentage(), 66);
    assert_eq!(ProgressInfo::new(199, 200).percentage(), 99);
    assert_eq!(ProgressInfo::new(1, u64::MAX).percentage(), 0);
}

#[test]
fn captures_are_read_as_numbers() {
    let info = read_percentage(Some("42")).unwrap();
    assert_eq!((info.current, info.total), (42, 100));
    assert!(info.message.is_none());
    assert_eq!(read_percentage(Some("101")).unwrap().current, 100);
    assert_eq!(read_percentage(Some("999")).unwrap().current, 100);
    assert!(read_percentage(Some("")).is_none());
    assert!(read_percentage(Some("٣٣")).is_none());
    assert!(read_percentage(None).is_none());

    let info = read_fraction(Some("7"), Some("0")).unwrap();
    assert_eq!((info.current, info.total), (7, 0));
    assert!(read_fraction(Some("7"), None).is_none());
    assert!(read_fraction(None, Some("7")).is_none());
    assert!(read_fraction(Some("18446744073709551616"), Some("7")).is_none());
    assert!(read_fraction(Some("7"), Some("18446744073709551616")).is_none());
    assert_eq!(read_fraction(Some("18446744073709551615"), Some("1")).unwrap().current, u64::MAX);
}

#[test]
fn parsers_search_as_their_patterns_say() {
    // The first match counts, also where it is no number in ASCII digits.
    assert!(PercentageParser.parse("٣٣% then 50%").is_none());
    // At most three digits stand before the percent sign.
    assert_eq!(PercentageParser.parse("1234%").unwrap().current, 100);
    assert_eq!(PercentageParser.parse("1050%").unwrap().current, 50);
    assert!(PercentageParser.parse("50 %").is_none());
    assert!(FractionParser.parse("1/").is_none());
    assert_eq!(FractionParser.parse("a 12 \t/\n 34 b").unwrap().total, 34);
    assert!(FractionParser.parse("99999999999999999999/2").is_none());
    assert!(ProgressBarParser.parse("[] 50%").is_none());
    assert!(ProgressBarParser.parse("[==x==] 50%").is_none());
    assert_eq!(ProgressBarParser.parse("x [=>-#  ]  7% y").unwrap().current, 7);
    assert!(ProgressBarParser.parse("50%").is_none());

    assert_eq!(ParserKind::Percentage.parse("5%").unwrap().current, 5);
    assert_eq!(ParserKind::Fraction.parse("5/6").unwrap().total, 6);
    assert_eq!(ParserKind::ProgressBar.parse("[#] 5%").unwrap().current, 5);
    let composite = CompositeParser::default().add(ParserKind::ProgressBar).add(ParserKind::Fraction);
    assert_eq!(composite.parse("1/2 [#] 5%").unwrap().total, 100);
    assert_eq!(composite.parse("1/2 5%").unwrap().total, 2);
    assert!(composite.parse("5%").is_none());
}
