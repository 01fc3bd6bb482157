use backup::batch::RunReport;
use backup::error::Error;
use backup::text::{decimal, extend_list, parse_number, same_text};

#[test]
fn decimal_writes_numbers() {
    assert_eq!(decimal(0), "0");
    assert_eq!(decimal(7), "7");
    assert_eq!(decimal(10), "10");
    assert_eq!(decimal(22), "22");
    assert_eq!(decimal(1009), "1009");
    assert_eq!(decimal(u32::MAX), "4294967295");
}

#[test]
fn decimal_agrees_with_the_standard_library() {
    for n in [0u32, 1, 9, 10, 11, 99, 100, 101, 12345, 65535, 65536, 1_000_000_000, u32::MAX - 1] {
        assert_eq!(decimal(n), n.to_string());
    }
}

#[test]
fn parse_number_reads_digits() {
    assert_eq!(parse_number("0"), Some(0));
    assert_eq!(parse_number("22"), Some(22));
    assert_eq!(parse_number("+22"), Some(22));
    assert_eq!(parse_number("007"), Some(7));
    assert_eq!(parse_number("4294967295"), Some(u32::MAX));
}

#[test]
fn parse_number_rejects_the_rest() {
    for text in [
        "", "+", "-", "-0", "-1", "++1", "1+", "1.0", "1e3", "0x10", " 1", "1 ", "1_000", "٣",
        "4294967296", "42949672950", "18446744073709551616",
    ] {
        assert_eq!(parse_number(text), None, "{:?}", text);
    }
}

#[test]
fn parse_number_agrees_with_the_standard_library() {
    for text in ["", "0", "+0", "-0", "12", "+12", "012", "4294967295", "4294967296", "a", "1a", "+"] {
        assert_eq!(parse_number(text), text.parse::<u32>().ok(), "{:?}", text);
    }
}

#[test]
fn written_numbers_read_back() {
    for n in [0u32, 5, 22, 80, 1000, 65535, u32::MAX] {
        assert_eq!(parse_number(&decimal(n)), Some(n));
    }
}

#[test]
fn same_text_compares_characters() {
    assert!(same_text("", ""));
    assert!(same_text("push", "push"));
    assert!(!same_text("push", "pust"));
    assert!(!same_text("push", "pushy"));
    assert!(!same_text("push", ""));
    assert!(same_text("héllo", "héllo"));
    assert!(!same_text("héllo", "hello"));
}

#[test]
fn lists_are_extended_by_copies() {
    let list = vec!["a".to_string(), "b".to_string()];
    let mut longer = vec!["z".to_string()];
    extend_list(&mut longer, &list);
    assert_eq!(longer, vec!["z".to_string(), "a".to_string(), "b".to_string()]);
}

#[test]
fn run_report_collects_failures_in_order() {
    let mut report = RunReport::new();
    assert_eq!(report.exit_code(), 0);
    assert!(report.failed().is_empty());
    report.record("/one", true);
    assert_eq!(report.exit_code(), 0);
    report.record("/two", false);
    report.record("/three", true);
    report.record("/four", false);
    assert_eq!(report.failed(), &vec!["/two".to_string(), "/four".to_string()]);
    assert_eq!(report.exit_code(), 1);
}

#[test]
fn every_error_has_its_message() {
    assert_eq!(
        Error::SourceWithAll.message(),
        "Can't specify a source directory when --all is used."
    );
    assert_eq!(Error::MalformedConfig.message(), "Failed to read config file.");
    assert_eq!(Error::InvalidPort.message(), "Must specify a valid port.");
    assert_eq!(Error::NoCommand.message(), "No command to run.");
    assert_eq!(Error::FetchUnimplemented.message(), "The fetch command is not implemented.");
    assert_eq!(Error::MissingServer.message(), "Must specify a server.");
    assert_eq!(Error::MissingUser.message(), "Must specify a user.");
    assert_eq!(Error::TransferFailed.message(), "Failed to execute the command.");
}
