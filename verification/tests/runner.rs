use ws_script::runner::{
    count_passed, failure_line, is_path_file, report, summary_line, unopened_reason, ScriptResult,
};
use ws_script::text::decimal;

fn passed(name: &str) -> ScriptResult {
    ScriptResult { name: name.to_string(), failure: None }
}

fn failed(name: &str, reason: &str) -> ScriptResult {
    ScriptResult { name: name.to_string(), failure: Some(reason.to_string()) }
}

#[test]
fn regular_file_is_a_script() {
    assert!(is_path_file(Some(true)));
}

#[test]
fn directory_is_not_a_script() {
    assert!(!is_path_file(Some(false)));
}

#[test]
fn unreadable_path_is_not_a_script() {
    assert!(!is_path_file(None));
}

#[test]
fn decimal_writes_numbers() {
    assert_eq!(decimal(0), "0");
    assert_eq!(decimal(7), "7");
    assert_eq!(decimal(9), "9");
    assert_eq!(decimal(10), "10");
    assert_eq!(decimal(42), "42");
    assert_eq!(decimal(100), "100");
    assert_eq!(decimal(1234567890), "1234567890");
    assert_eq!(decimal(usize::MAX), usize::MAX.to_string());
}

#[test]
fn count_passed_counts_results_without_failure() {
    assert_eq!(count_passed(&vec![]), 0);
    assert_eq!(count_passed(&vec![passed("a")]), 1);
    assert_eq!(count_passed(&vec![failed("a", "x")]), 0);
    assert_eq!(count_passed(&vec![passed("a"), failed("b", "x"), passed("c")]), 2);
}

#[test]
fn summary_line_gives_passed_and_total() {
    assert_eq!(summary_line(3, 4), "3/4 tests passed");
    assert_eq!(summary_line(0, 0), "0/0 tests passed");
    assert_eq!(summary_line(12, 120), "12/120 tests passed");
}

#[test]
fn failure_line_gives_name_and_reason() {
    assert_eq!(failure_line("tests/a.txt", "Websocket closed"), "tests/a.txt failed with: Websocket closed");
    assert_eq!(failure_line("", ""), " failed with: ");
}

#[test]
fn unopened_reason_names_the_file() {
    assert_eq!(unopened_reason("tests/a.txt"), "Could not open test file tests/a.txt");
}

#[test]
fn report_of_no_scripts() {
    assert_eq!(report(&vec![]), vec!["0/0 tests passed".to_string()]);
}

#[test]
fn report_lists_failures_in_order() {
    let results = vec![
        failed("one", "Invalid regex"),
        passed("two"),
        failed("three", "Websocket closed"),
        passed("four"),
    ];
    assert_eq!(
        report(&results),
        vec![
            "2/4 tests passed".to_string(),
            "one failed with: Invalid regex".to_string(),
            "three failed with: Websocket closed".to_string(),
        ]
    );
}

#[test]
fn report_of_passing_scripts_is_the_summary() {
    assert_eq!(report(&vec![passed("a"), passed("b")]), vec!["2/2 tests passed".to_string()]);
}
