use tremor_ls::analysis::ParseReport;
use tremor_ls::analysis::Severity;
use tremor_ls::analysis::run_checks;
use tremor_ls::position::NativeLocation;
use tremor_ls::position::NativeRange;
use tremor_ls::session::Session;

fn error_at(start: (usize, usize), end: (usize, usize)) -> Option<ParseReport> {
    Some(ParseReport {
        message: String::from("Found the token `<end of stream>` but expected an expression"),
        range: Some(NativeRange {
            start: NativeLocation { line: start.0, column: start.1 },
            end: NativeLocation { line: end.0, column: end.1 },
        }),
    })
}

#[test]
fn clean_text_yields_no_diagnostics() {
    let diags = run_checks("let x = 1;", &None);
    assert!(diags.is_empty());
}

#[test]
fn failed_parse_yields_one_error_diagnostic() {
    let diags = run_checks("let x = ", &error_at((1, 9), (1, 10)));
    assert_eq!(diags.len(), 1);
    assert_eq!(diags[0].severity, Severity::Error);
    assert_eq!(diags[0].range.start.line, 0);
    assert_eq!(diags[0].range.start.character, 8);
    // The end column lies one past the text, so it clamps to the line's end.
    assert_eq!(diags[0].range.end.character, 8);
}

#[test]
fn report_without_range_lands_at_document_start() {
    let outcome = Some(ParseReport { message: String::from("bad input"), range: None });
    let diags = run_checks("let x = ", &outcome);
    assert_eq!(diags.len(), 1);
    assert_eq!(diags[0].range.start.line, 0);
    assert_eq!(diags[0].range.start.character, 0);
    assert_eq!(diags[0].range.end.character, 0);
}

#[test]
fn zero_based_sentinel_range_lands_at_document_start() {
    // An analyzer that carries no real range reports all-zero locations,
    // which are not valid 1-based coordinates.
    let diags = run_checks("let x = ", &error_at((0, 0), (0, 0)));
    assert_eq!(diags.len(), 1);
    assert_eq!(diags[0].range.start.line, 0);
    assert_eq!(diags[0].range.start.character, 0);
}

#[test]
fn open_stores_text_and_version() {
    let mut s = Session::new();
    s.did_open(String::from("file:///a.tremor"), String::from("let x = 1;"), 1);
    let doc = s.get("file:///a.tremor").expect("document should be open");
    assert_eq!(doc.text, "let x = 1;");
    assert_eq!(doc.version, 1);
    assert!(doc.diagnostics.is_empty());
}

#[test]
fn open_well_formed_text_publishes_empty_list() {
    let mut s = Session::new();
    let uri = "file:///a.tremor";
    s.did_open(String::from(uri), String::from("let x = 1;"), 1);
    s.complete_analysis(uri, 1, &None);
    let payload = s.take_pending(uri).expect("a publish should be scheduled");
    assert!(payload.is_empty());
}

#[test]
fn open_incomplete_expression_publishes_one_error_with_real_range() {
    let mut s = Session::new();
    let uri = "file:///a.tremor";
    s.did_open(String::from(uri), String::from("let x = "), 1);
    s.complete_analysis(uri, 1, &error_at((1, 9), (1, 10)));
    let payload = s.take_pending(uri).expect("a publish should be scheduled");
    assert_eq!(payload.len(), 1);
    assert_eq!(payload[0].severity, Severity::Error);
    // A real range, not the document-start default.
    assert!(payload[0].range.start.character != 0 || payload[0].range.end.character != 0);
    assert_eq!(payload[0].range.start.character, 8);
}

#[test]
fn change_on_unknown_uri_is_an_implicit_open() {
    let mut s = Session::new();
    s.did_change("file:///b.tremor", String::from("let y = 2;"), 3);
    let doc = s.get("file:///b.tremor").expect("implicit open should store the document");
    assert_eq!(doc.version, 3);
}

#[test]
fn identical_updates_publish_identical_diagnostics() {
    let outcome = error_at((1, 9), (1, 10));

    let mut once = Session::new();
    let uri = "file:///a.tremor";
    once.did_change(uri, String::from("let x = "), 1);
    once.complete_analysis(uri, 1, &outcome);
    let first = once.take_pending(uri).expect("first publish");

    let mut twice = Session::new();
    twice.did_change(uri, String::from("let x = "), 1);
    twice.complete_analysis(uri, 1, &outcome);
    twice.did_change(uri, String::from("let x = "), 2);
    twice.complete_analysis(uri, 2, &outcome);
    let second = twice.take_pending(uri).expect("second publish");

    assert_eq!(first.len(), second.len());
    assert_eq!(first[0].range, second[0].range);
    assert_eq!(first[0].message, second[0].message);
}

#[test]
fn stale_result_does_not_overwrite_newer_version() {
    let uri = "file:///a.tremor";
    let old_outcome = error_at((1, 9), (1, 10));

    let mut s = Session::new();
    s.did_open(String::from(uri), String::from("let x = "), 1);
    s.did_change(uri, String::from("let x = 1;"), 2);
    // The analysis of version 2 finishes first; the stale version 1 result
    // arrives afterwards and must be discarded.
    s.complete_analysis(uri, 2, &None);
    s.complete_analysis(uri, 1, &old_outcome);
    let payload = s.take_pending(uri).expect("a publish should be scheduled");
    assert!(payload.is_empty());
    let doc = s.get(uri).expect("document is open");
    assert!(doc.diagnostics.is_empty());
}

#[test]
fn stale_result_discarded_in_the_other_completion_order() {
    let uri = "file:///a.tremor";
    let old_outcome = error_at((1, 9), (1, 10));

    let mut s = Session::new();
    s.did_open(String::from(uri), String::from("let x = "), 1);
    s.did_change(uri, String::from("let x = 1;"), 2);
    s.complete_analysis(uri, 1, &old_outcome);
    s.complete_analysis(uri, 2, &None);
    let payload = s.take_pending(uri).expect("a publish should be scheduled");
    assert!(payload.is_empty());
}

#[test]
fn close_then_get_finds_nothing_and_clears_diagnostics() {
    let uri = "file:///a.tremor";
    let mut s = Session::new();
    s.did_open(String::from(uri), String::from("let x = "), 1);
    s.complete_analysis(uri, 1, &error_at((1, 9), (1, 10)));
    s.did_close(uri);
    assert!(s.get(uri).is_none());
    let payload = s.take_pending(uri).expect("close schedules a publish");
    assert!(payload.is_empty());
}

#[test]
fn close_before_analysis_completes_discards_the_result() {
    let uri = "file:///a.tremor";
    let mut s = Session::new();
    s.did_open(String::from(uri), String::from("let x = "), 1);
    s.did_close(uri);
    // The analysis of the already-closed content finishes now.
    s.complete_analysis(uri, 1, &error_at((1, 9), (1, 10)));
    assert!(s.get(uri).is_none());
    let payload = s.take_pending(uri).expect("the close's empty publish stays");
    assert!(payload.is_empty());
}

#[test]
fn schedule_coalesces_to_the_latest_payload() {
    let uri = "file:///a.tremor";
    let mut s = Session::new();
    s.did_open(String::from(uri), String::from("let x = "), 1);
    s.complete_analysis(uri, 1, &error_at((1, 9), (1, 10)));
    // A newer change and its analysis supersede the pending payload before
    // anything was taken.
    s.did_change(uri, String::from("let x = 1;"), 2);
    s.complete_analysis(uri, 2, &None);
    let peek = s.pending(uri).expect("a payload is pending");
    assert!(peek.is_empty());
    let payload = s.take_pending(uri).expect("one coalesced publish");
    assert!(payload.is_empty());
    assert!(s.take_pending(uri).is_none());
    assert!(s.pending(uri).is_none());
}

#[test]
fn snapshot_hands_out_the_stored_text_and_version() {
    let uri = "file:///a.tremor";
    let mut s = Session::new();
    s.did_open(String::from(uri), String::from("let x = "), 4);
    let (text, version) = s.snapshot(uri).expect("document is open");
    assert_eq!(text, "let x = ");
    assert_eq!(version, 4);
    assert!(s.snapshot("file:///missing.tremor").is_none());
}

#[test]
fn diagnostic_message_carries_the_analyzer_text() {
    let diags = run_checks("let x = ", &error_at((1, 9), (1, 10)));
    assert_eq!(
        diags[0].message,
        "Found the token `<end of stream>` but expected an expression"
    );
}
