use vecta::config::{
    ExclusionConfiguration, InclusionConfiguration, IndexingConfiguration, VectaConfiguration,
};
use vecta::document::{Built, Document, IngestError, SkipReason};
use vecta::environment::{environment_for, initialize_environment};
use vecta::errors::{
    engine_failure, parse_failure, CoreError, DirectoryNotFoundError, Operation,
};
use vecta::ingest::IngestSummary;
use vecta::store::{
    open_action, IndexingContext, OpenAction, DEFAULT_MERGE_BUDGET, DEFAULT_WRITER_BUDGET,
};
use vecta::system::{get_user_home, home_from_lookup, HOME_NOT_FOUND_CODE};
use vecta::text::{chars_of, render_decimal, render_natural};

#[test]
fn test_get_user_home() {
    let home = get_user_home();
    assert!(home.is_ok());
}

#[test]
fn found_home_is_returned_as_it_is() {
    assert_eq!(home_from_lookup(Some("/home/ada".to_string())).unwrap(), "/home/ada");
    assert_eq!(home_from_lookup(Some(String::new())).unwrap(), "");
}

#[test]
fn missing_home_is_the_not_found_error() {
    let error = home_from_lookup(None).unwrap_err();
    assert_eq!(error.message, "Home directory not found");
    assert_eq!(error.code, 1);
    assert_eq!(HOME_NOT_FOUND_CODE, 1);
}

#[test]
fn environment_uses_the_home_that_was_found() {
    assert_eq!(environment_for(Ok("/home/ada".to_string())).user_home, "/home/ada");
}

#[test]
fn environment_falls_back_to_the_current_directory() {
    let error = DirectoryNotFoundError { message: "Home directory not found".to_string(), code: 1 };
    assert_eq!(environment_for(Err(error)).user_home, ".");
}

#[test]
fn initialized_environment_agrees_with_the_lookup() {
    let expected = match get_user_home() {
        Ok(home) => home,
        Err(_) => ".".to_string(),
    };
    assert_eq!(initialize_environment().user_home, expected);
}

#[test]
fn error_is_described_with_message_and_code() {
    let error = DirectoryNotFoundError { message: "Home directory not found".to_string(), code: 1 };
    assert_eq!(error.describe(), "MyCustomError: Home directory not found (code: 1)");
    let error = DirectoryNotFoundError { message: String::new(), code: -42 };
    assert_eq!(error.describe(), "MyCustomError:  (code: -42)");
}

#[test]
fn numbers_are_written_in_decimal() {
    assert_eq!(render_decimal(0), "0");
    assert_eq!(render_decimal(7), "7");
    assert_eq!(render_decimal(10), "10");
    assert_eq!(render_decimal(-1), "-1");
    assert_eq!(render_decimal(1905), "1905");
    assert_eq!(render_decimal(i32::MAX), "2147483647");
    assert_eq!(render_decimal(i32::MIN), "-2147483648");
    assert_eq!(render_natural(0), "0");
    assert_eq!(render_natural(u64::MAX), "18446744073709551615");
}

#[test]
fn chars_of_lists_the_characters() {
    assert_eq!(chars_of("a.b"), vec!['a', '.', 'b']);
    assert_eq!(chars_of("\u{fc}\u{4e16}"), vec!['\u{fc}', '\u{4e16}']);
    assert_eq!(chars_of(""), Vec::<char>::new());
}

#[test]
fn engine_failures_become_typed_errors() {
    let fail = |operation, locked| {
        engine_failure(operation, locked, "subject".to_string(), "reason".to_string())
    };
    assert!(matches!(
        fail(Operation::Open, false),
        CoreError::IndexOpen { path, reason } if path == "subject" && reason == "reason"
    ));
    assert!(matches!(
        fail(Operation::Add, false),
        CoreError::Ingest(IngestError::Rejected { reason }) if reason == "reason"
    ));
    assert!(matches!(
        fail(Operation::Commit, false),
        CoreError::Commit { path, reason } if path == "subject" && reason == "reason"
    ));
    assert!(matches!(
        fail(Operation::Merge, false),
        CoreError::Merge { path, reason } if path == "subject" && reason == "reason"
    ));
    assert!(matches!(
        parse_failure("\"open".to_string(), "reason".to_string()),
        CoreError::QueryParse { query, reason } if query == "\"open" && reason == "reason"
    ));
    assert!(matches!(
        fail(Operation::Search, false),
        CoreError::SearchExecution { path, reason } if path == "subject" && reason == "reason"
    ));
}

#[test]
fn a_held_lock_is_lock_contention_whatever_was_being_done() {
    for operation in [
        Operation::Open,
        Operation::Add,
        Operation::Commit,
        Operation::Merge,
        Operation::Search,
    ] {
        let error = engine_failure(operation, true, "./index".to_string(), "busy".to_string());
        assert!(matches!(error, CoreError::LockContention { path } if path == "./index"));
    }
}

#[test]
fn summary_counts_indexed_and_skipped_files() {
    let mut summary = IngestSummary::new();
    assert_eq!(summary, IngestSummary { indexed: 0, skipped: 0, walk_failures: 0 });
    summary.record(&Built::Doc(Document { values: Vec::new() }));
    summary.record(&Built::Skip(SkipReason::Binary));
    summary.record(&Built::Skip(SkipReason::TooLarge));
    summary.record(&Built::Skip(SkipReason::Unreadable("denied".to_string())));
    summary.record_walk_failure();
    assert_eq!(summary, IngestSummary { indexed: 1, skipped: 3, walk_failures: 1 });
    assert_eq!(summary.seen(), 4);
}

#[test]
fn summary_counts_stop_at_the_maximum() {
    let mut summary =
        IngestSummary { indexed: u64::MAX, skipped: u64::MAX - 1, walk_failures: u64::MAX };
    assert_eq!(summary.seen(), u64::MAX);
    summary.record(&Built::Doc(Document { values: Vec::new() }));
    summary.record(&Built::Skip(SkipReason::Binary));
    summary.record(&Built::Skip(SkipReason::Binary));
    summary.record_walk_failure();
    assert_eq!(
        summary,
        IngestSummary { indexed: u64::MAX, skipped: u64::MAX, walk_failures: u64::MAX }
    );
}

#[test]
fn an_existing_path_is_opened_and_a_missing_one_created() {
    assert_eq!(open_action(true), OpenAction::Open);
    assert_eq!(open_action(false), OpenAction::Create);
}

#[test]
fn context_defaults() {
    let context = IndexingContext::at_default_location();
    assert_eq!(context.index_path, "./index");
    assert_eq!(context.writer_budget, 50_000_000);
    assert_eq!(context.merge_budget, 500_000_000);
    assert_eq!(context.max_file_bytes, None);
    assert_eq!(DEFAULT_WRITER_BUDGET, 50_000_000);
    assert_eq!(DEFAULT_MERGE_BUDGET, 500_000_000);
    let elsewhere = IndexingContext::at("/var/lib/vecta/data".to_string());
    assert_eq!(elsewhere.index_path, "/var/lib/vecta/data");
    assert_eq!(elsewhere.writer_budget, 50_000_000);
}

#[test]
fn configuration_splits_into_directories_and_rules() {
    let config = VectaConfiguration {
        main: IndexingConfiguration {
            directories: vec!["/path/to/directory".to_string()],
            exclusions: ExclusionConfiguration {
                excluded_files: vec!["x".to_string()],
                excluded_directories: vec!["/path/to/exclusion".to_string()],
                excluded_extensions: vec![".bin".to_string()],
            },
            inclusions: InclusionConfiguration {
                included_files: vec!["f".to_string()],
                included_directories: vec!["src".to_string()],
                included_extensions: vec![".rs".to_string()],
            },
        },
    };
    let (directories, rules) = config.main.into_parts();
    assert_eq!(directories, vec!["/path/to/directory".to_string()]);
    assert_eq!(rules.excluded_files, vec!["x".to_string()]);
    assert_eq!(rules.excluded_directories, vec!["/path/to/exclusion".to_string()]);
    assert_eq!(rules.excluded_extensions, vec![".bin".to_string()]);
    assert_eq!(rules.included_files, vec!["f".to_string()]);
    assert_eq!(rules.included_directories, vec!["src".to_string()]);
    assert_eq!(rules.included_extensions, vec![".rs".to_string()]);
}
