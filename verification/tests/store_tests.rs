use tremor_ls::analysis::Diagnostic;
use tremor_ls::analysis::Severity;
use tremor_ls::document::DocumentStore;
use tremor_ls::position::ProtocolPosition;
use tremor_ls::position::ProtocolRange;
use tremor_ls::publish::Publisher;

fn sample_diagnostic(message: &str) -> Diagnostic {
    Diagnostic {
        range: ProtocolRange {
            start: ProtocolPosition { line: 0, character: 8 },
            end: ProtocolPosition { line: 0, character: 9 },
        },
        severity: Severity::Error,
        message: String::from(message),
    }
}

#[test]
fn get_on_unknown_uri_signals_not_found() {
    let store = DocumentStore::new();
    assert!(store.get("file:///missing.tremor").is_none());
}

#[test]
fn open_then_get_returns_the_document() {
    let mut store = DocumentStore::new();
    store.open(String::from("file:///a.tremor"), String::from("let x = 1;"), 1);
    let doc = store.get("file:///a.tremor").expect("open stores the document");
    assert_eq!(doc.text, "let x = 1;");
    assert_eq!(doc.version, 1);
}

#[test]
fn update_keeps_last_completed_diagnostics() {
    let mut store = DocumentStore::new();
    store.open(String::from("file:///a.tremor"), String::from("let x = "), 1);
    store.set_diagnostics("file:///a.tremor", 1, vec![sample_diagnostic("boom")]);
    store.update("file:///a.tremor", String::from("let x = 1"), 2);
    let doc = store.get("file:///a.tremor").expect("still open");
    assert_eq!(doc.version, 2);
    // The old result stays visible until a newer analysis completes.
    assert_eq!(doc.diagnostics.len(), 1);
    assert_eq!(doc.diagnostics[0].message, "boom");
}

#[test]
fn set_diagnostics_for_a_stale_version_changes_nothing() {
    let mut store = DocumentStore::new();
    store.open(String::from("file:///a.tremor"), String::from("let x = 1;"), 2);
    store.set_diagnostics("file:///a.tremor", 1, vec![sample_diagnostic("stale")]);
    let doc = store.get("file:///a.tremor").expect("still open");
    assert!(doc.diagnostics.is_empty());
}

#[test]
fn close_removes_the_document() {
    let mut store = DocumentStore::new();
    store.open(String::from("file:///a.tremor"), String::from("let x = 1;"), 1);
    store.close("file:///a.tremor");
    assert!(store.get("file:///a.tremor").is_none());
}

#[test]
fn store_snapshot_is_a_stable_copy() {
    let mut store = DocumentStore::new();
    store.open(String::from("file:///a.tremor"), String::from("let x = "), 5);
    let (text, version) = store.snapshot("file:///a.tremor").expect("open");
    store.update("file:///a.tremor", String::from("let x = 1;"), 6);
    // The snapshot is unaffected by the later edit.
    assert_eq!(text, "let x = ");
    assert_eq!(version, 5);
}

#[test]
fn publisher_keeps_only_the_latest_payload() {
    let mut publisher = Publisher::new();
    publisher.schedule(String::from("file:///a.tremor"), vec![sample_diagnostic("first")]);
    publisher.schedule(String::from("file:///a.tremor"), vec![sample_diagnostic("second")]);
    let peek = publisher.pending("file:///a.tremor").expect("a payload is pending");
    assert_eq!(peek.len(), 1);
    assert_eq!(peek[0].message, "second");
    let taken = publisher.take("file:///a.tremor").expect("take returns the payload");
    assert_eq!(taken[0].message, "second");
    assert!(publisher.pending("file:///a.tremor").is_none());
    assert!(publisher.take("file:///a.tremor").is_none());
}
