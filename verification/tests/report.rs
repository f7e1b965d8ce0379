use modsurfer::module::{FunctionType, ValType};
use modsurfer::report::{
    bar_text, presence_text, table_header, Classification, FailureDetail, Report,
};

fn fail(report: &mut Report, path: &str, severity: usize) {
    report.validate_fn(
        path,
        "expected".to_string(),
        "actual".to_string(),
        false,
        severity,
        Classification::Security,
    );
}

#[test]
fn new_report_has_no_failures() {
    let report = Report::new();
    assert!(!report.has_failures());
    assert_eq!(report.len(), 0);
    assert_eq!(report.exit_status(), 0);
    assert!(report.get("anything").is_none());
}

#[test]
fn check_that_holds_leaves_no_entry() {
    let mut report = Report::new();
    report.validate_fn(
        "size.max",
        "<= 1".to_string(),
        "1".to_string(),
        true,
        10,
        Classification::ResourceLimit,
    );
    assert!(!report.has_failures());
}

#[test]
fn entries_are_kept_in_order_of_path() {
    let mut report = Report::new();
    fail(&mut report, "size.max", 1);
    fail(&mut report, "allow_wasi", 2);
    fail(&mut report, "imports.include.env::b", 3);
    fail(&mut report, "exports.max", 4);
    fail(&mut report, "imports.include.env::a", 5);
    fail(&mut report, "imports.include.env", 6);
    assert_eq!(report.len(), 6);
    let paths: Vec<&str> = (0..report.len()).map(|i| report.path_at(i)).collect();
    assert_eq!(
        paths,
        vec![
            "allow_wasi",
            "exports.max",
            "imports.include.env",
            "imports.include.env::a",
            "imports.include.env::b",
            "size.max"
        ]
    );
    assert_eq!(report.detail_at(0).severity(), 2);
    assert_eq!(report.detail_at(5).severity(), 1);
    assert_eq!(report.get("exports.max").unwrap().severity(), 4);
    assert!(report.get("exports").is_none());
    assert_eq!(report.exit_status(), 1);
}

#[test]
fn later_entry_replaces_an_earlier_one_at_the_same_path() {
    let mut report = Report::new();
    fail(&mut report, "a", 1);
    fail(&mut report, "b", 2);
    report.validate_fn(
        "a",
        "other".to_string(),
        "found".to_string(),
        false,
        7,
        Classification::AbiCompatibility,
    );
    assert_eq!(report.len(), 2);
    let detail = report.get("a").unwrap();
    assert_eq!(detail.severity(), 7);
    assert_eq!(detail.expected(), "other");
    assert_eq!(detail.actual(), "found");
    assert_eq!(detail.classification(), Classification::AbiCompatibility);
}

#[test]
fn paths_are_ordered_by_their_bytes() {
    let mut report = Report::new();
    fail(&mut report, "b", 1);
    fail(&mut report, "B", 1);
    fail(&mut report, "é", 1);
    fail(&mut report, "a.b", 1);
    fail(&mut report, "a", 1);
    fail(&mut report, "", 1);
    fail(&mut report, "a-b", 1);
    let paths: Vec<&str> = (0..report.len()).map(|i| report.path_at(i)).collect();
    let mut sorted = paths.clone();
    sorted.sort();
    assert_eq!(paths, sorted);
    assert_eq!(paths, vec!["", "B", "a", "a-b", "a.b", "b", "é"]);
}

#[test]
fn severity_stops_at_ten() {
    let detail = FailureDetail::new("a".to_string(), "e".to_string(), 11, Classification::Security);
    assert_eq!(detail.severity(), 10);
    let detail = FailureDetail::new("a".to_string(), "e".to_string(), 10, Classification::Security);
    assert_eq!(detail.severity(), 10);
    let detail = FailureDetail::new("a".to_string(), "e".to_string(), 0, Classification::Security);
    assert_eq!(detail.severity(), 0);
    let mut report = Report::new();
    fail(&mut report, "x", usize::MAX);
    assert_eq!(report.get("x").unwrap().severity(), 10);
}

#[test]
fn signature_is_held_against_what_is_expected() {
    let actual = FunctionType { params: vec![ValType::I32], results: vec![ValType::F64] };
    let mut report = Report::new();
    report.validate_fn_type("f", &actual, None, None);
    assert!(!report.has_failures());
    report.validate_fn_type("f", &actual, Some(&vec![ValType::I32]), Some(&vec![ValType::F64]));
    assert!(!report.has_failures());
    report.validate_fn_type("f", &actual, Some(&vec![]), None);
    assert_eq!(report.len(), 1);
    let detail = report.get("f.params").unwrap();
    assert_eq!(detail.expected(), "[]");
    assert_eq!(detail.actual(), "[I32]");
    assert_eq!(detail.severity(), 8);
    assert_eq!(detail.classification(), Classification::AbiCompatibility);
    report.validate_fn_type("f", &actual, None, Some(&vec![ValType::F64, ValType::V128]));
    assert_eq!(report.len(), 2);
    let detail = report.get("f.results").unwrap();
    assert_eq!(detail.expected(), "[F64, V128]");
    assert_eq!(detail.actual(), "[F64]");
}

#[test]
fn report_is_shown_as_rows_of_a_table() {
    assert_eq!(
        table_header(),
        vec!["Status", "Property", "Expected", "Actual", "Classification", "Severity"]
    );
    let mut report = Report::new();
    report.validate_fn(
        "size.max",
        "<= 1MB".to_string(),
        "1.9 MiB".to_string(),
        false,
        3,
        Classification::ResourceLimit,
    );
    assert_eq!(
        report.row_at(0),
        vec!["FAIL", "size.max", "<= 1MB", "1.9 MiB", "Resource Limit", "|||"]
    );
    assert_eq!(bar_text(0), "");
    assert_eq!(bar_text(10), "||||||||||");
}

#[test]
fn classifications_and_presence_are_written_out() {
    assert_eq!(Classification::AbiCompatibility.to_string(), "ABI Compatibility");
    assert_eq!(Classification::ResourceLimit.to_string(), "Resource Limit");
    assert_eq!(Classification::Security.as_str(), "Security");
    assert_eq!(presence_text(true), "included");
    assert_eq!(presence_text(false), "excluded");
}

#[test]
fn copy_of_a_report_has_the_same_entries() {
    let mut report = Report::new();
    fail(&mut report, "b", 2);
    fail(&mut report, "a", 1);
    let copy = report.clone();
    assert_eq!(copy, report);
    assert_eq!(copy.path_at(0), "a");
    assert_eq!(copy.detail_at(1).clone().severity(), 2);
}
