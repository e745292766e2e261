//! The per-document lifecycle: open, change, analyze, close.
//!
//! The session owns the document store and the publisher and turns lifecycle
//! events into their state changes. An open or change stores the new text
//! and version; the analysis of that text runs elsewhere, against a snapshot,
//! and hands its outcome back through `complete_analysis`, tagged with the
//! version it was computed from. A result for any version other than the one
//! still stored is discarded, so published diagnostics are monotone in the
//! document version no matter in which order analyses finish. A close
//! removes the document and schedules an empty payload so stale markers are
//! cleared client-side.

use vstd::prelude::*;
use crate::analysis::Diagnostic;
use crate::analysis::DiagnosticView;
use crate::analysis::ParseReport;
use crate::analysis::ParseReportView;
use crate::analysis::diagnostics_spec;
use crate::analysis::diags_view;
use crate::analysis::outcome_view;
use crate::analysis::run_checks;
use crate::document::Document;
use crate::document::DocumentStore;
use crate::document::DocumentView;
use crate::document::clone_diags;
use crate::publish::Publisher;

verus! {

/// The session's whole state: the open documents and the pending payloads.
#[verifier::ext_equal]
pub struct SessionView {
    pub store: Map<Seq<char>, DocumentView>,
    pub pending: Map<Seq<char>, Seq<DiagnosticView>>,
}

/// Every stored text is short enough for its UTF-16 length to be counted in
/// a `usize`.
pub open spec fn session_inv(s: SessionView) -> bool {
    forall|u: Seq<char>| s.store.contains_key(u) ==> 2 * s.store[u].text.len() <= usize::MAX
}

/// The state after a document is opened: its text and version are stored
/// with no diagnostics yet, and nothing is published until an analysis
/// completes.
pub open spec fn after_open(
    s: SessionView,
    uri: Seq<char>,
    text: Seq<char>,
    version: u64,
) -> SessionView {
    SessionView {
        store: s.store.insert(
            uri,
            DocumentView { text, version, diagnostics: Seq::<DiagnosticView>::empty() },
        ),
        pending: s.pending,
    }
}

/// The state after a change: the stored text and version move forward, the
/// diagnostics of the last completed analysis stay until a newer analysis
/// completes, and a change for an unknown URI is an implicit open.
pub open spec fn after_update(
    s: SessionView,
    uri: Seq<char>,
    text: Seq<char>,
    version: u64,
) -> SessionView {
    SessionView {
        store: s.store.insert(
            uri,
            DocumentView {
                text,
                version,
                diagnostics: if s.store.contains_key(uri) {
                    s.store[uri].diagnostics
                } else {
                    Seq::<DiagnosticView>::empty()
                },
            },
        ),
        pending: s.pending,
    }
}

/// The state after an analysis outcome arrives for `uri`, tagged with the
/// version its input text carried. When that is still the stored version,
/// the document's diagnostics become the outcome's and the same payload is
/// scheduled for publishing; any other version is a stale or unknown result
/// and changes nothing.
pub open spec fn after_complete(
    s: SessionView,
    uri: Seq<char>,
    version: u64,
    o: Option<ParseReportView>,
) -> SessionView {
    if s.store.contains_key(uri) && s.store[uri].version == version {
        let diags = diagnostics_spec(s.store[uri].text, o);
        SessionView {
            store: s.store.insert(
                uri,
                DocumentView { text: s.store[uri].text, version, diagnostics: diags },
            ),
            pending: s.pending.insert(uri, diags),
        }
    } else {
        s
    }
}

/// The state after a close: the document is gone and an empty payload is
/// scheduled, clearing the client's stale markers.
pub open spec fn after_close(s: SessionView, uri: Seq<char>) -> SessionView {
    SessionView {
        store: s.store.remove(uri),
        pending: s.pending.insert(uri, Seq::<DiagnosticView>::empty()),
    }
}

/// Drives the document lifecycle over the store and the publisher.
pub struct Session {
    store: DocumentStore,
    publisher: Publisher,
}

impl View for Session {
    type V = SessionView;

    closed spec fn view(&self) -> SessionView {
        SessionView { store: self.store@, pending: self.publisher@ }
    }
}

impl Session {
    /// A fresh session: no documents, nothing pending.
    pub fn new() -> (r: Self)
        ensures
            r@.store == Map::<Seq<char>, DocumentView>::empty(),
            r@.pending == Map::<Seq<char>, Seq<DiagnosticView>>::empty(),
            session_inv(r@),
    {
        Session { store: DocumentStore::new(), publisher: Publisher::new() }
    }

    /// A document was opened with `text` at `version`.
    pub fn did_open(&mut self, uri: String, text: String, version: u64)
        requires
            2 * text@.len() <= usize::MAX,
            session_inv(old(self)@),
        ensures
            final(self)@ == after_open(old(self)@, uri@, text@, version),
            session_inv(final(self)@),
    {
        self.store.open(uri, text, version);
        proof {
            assert(final(self)@ =~~= after_open(old(self)@, uri@, text@, version));
        }
    }

    /// A document's full text was replaced at `version`; an unknown URI is
    /// implicitly opened.
    pub fn did_change(&mut self, uri: &str, text: String, version: u64)
        requires
            2 * text@.len() <= usize::MAX,
            session_inv(old(self)@),
        ensures
            final(self)@ == after_update(old(self)@, uri@, text@, version),
            session_inv(final(self)@),
    {
        self.store.update(uri, text, version);
        proof {
            assert(final(self)@ =~~= after_update(old(self)@, uri@, text@, version));
        }
    }

    /// A stable copy of the text to analyze for `uri`, with the version to
    /// tag the outcome with; `None` when the document is not open.
    pub fn snapshot(&self, uri: &str) -> (r: Option<(String, u64)>)
        ensures
            match r {
                Option::Some(s) => self@.store.contains_key(uri@) && s.0@
                    == self@.store[uri@].text && s.1 == self@.store[uri@].version,
                Option::None => !self@.store.contains_key(uri@),
            },
    {
        self.store.snapshot(uri)
    }

    /// An analysis finished: its outcome was computed from the text stored
    /// for `uri` at `version`. When that is still the current version the
    /// diagnostics are attached and scheduled; a result for an older (or
    /// unknown) version is discarded, never overwriting a newer one.
    pub fn complete_analysis(&mut self, uri: &str, version: u64, outcome: &Option<ParseReport>)
        requires
            session_inv(old(self)@),
        ensures
            final(self)@ == after_complete(old(self)@, uri@, version, outcome_view(*outcome)),
            session_inv(final(self)@),
    {
        let snap = self.store.snapshot(uri);
        match snap {
            Option::Some(s) => {
                let (text, stored_version) = s;
                if stored_version == version {
                    proof {
                        assert(old(self)@.store.contains_key(uri@));
                        assert(2 * old(self)@.store[uri@].text.len() <= usize::MAX);
                    }
                    let diags = run_checks(text.as_str(), outcome);
                    let payload = clone_diags(&diags);
                    self.store.set_diagnostics(uri, version, diags);
                    self.publisher.schedule(uri.to_owned(), payload);
                    proof {
                        assert(final(self)@ =~~= after_complete(
                            old(self)@,
                            uri@,
                            version,
                            outcome_view(*outcome),
                        ));
                    }
                }
            },
            Option::None => {},
        }
    }

    /// A document was closed: it leaves the store and an empty payload is
    /// scheduled so the client clears its markers.
    pub fn did_close(&mut self, uri: &str)
        requires
            session_inv(old(self)@),
        ensures
            final(self)@ == after_close(old(self)@, uri@),
            session_inv(final(self)@),
    {
        self.store.close(uri);
        self.publisher.schedule(uri.to_owned(), Vec::new());
        proof {
            assert(diags_view(Seq::<Diagnostic>::empty()) =~= Seq::<DiagnosticView>::empty());
            assert(final(self)@ =~~= after_close(old(self)@, uri@));
        }
    }

    /// The document open at `uri`, or `None` when it is closed or was never
    /// opened.
    pub fn get(&self, uri: &str) -> (r: Option<&Document>)
        ensures
            match r {
                Option::Some(doc) => self@.store.contains_key(uri@) && doc@
                    == self@.store[uri@],
                Option::None => !self@.store.contains_key(uri@),
            },
    {
        self.store.get(uri)
    }

    /// Looks at the payload waiting to be published for `uri` without
    /// removing it.
    pub fn pending(&self, uri: &str) -> (r: Option<&Vec<Diagnostic>>)
        ensures
            match r {
                Option::Some(v) => self@.pending.contains_key(uri@) && diags_view(v@)
                    == self@.pending[uri@],
                Option::None => !self@.pending.contains_key(uri@),
            },
    {
        self.publisher.pending(uri)
    }

    /// Removes and returns the payload waiting to be published for `uri`:
    /// the diagnostics the latest completed analysis or close scheduled.
    pub fn take_pending(&mut self, uri: &str) -> (r: Option<Vec<Diagnostic>>)
        requires
            session_inv(old(self)@),
        ensures
            final(self)@.store == old(self)@.store,
            final(self)@.pending == old(self)@.pending.remove(uri@),
            session_inv(final(self)@),
            match r {
                Option::Some(v) => old(self)@.pending.contains_key(uri@) && diags_view(v@) == old(
                    self,
                )@.pending[uri@],
                Option::None => !old(self)@.pending.contains_key(uri@),
            },
    {
        self.publisher.take(uri)
    }
}

/// A text the analyzer accepts publishes the empty diagnostic list: when the
/// outcome for the stored version reports no error, the completed analysis
/// schedules no diagnostics and the document keeps none.
pub proof fn lemma_success_publishes_empty(s: SessionView, uri: Seq<char>, version: u64)
    requires
        s.store.contains_key(uri),
        s.store[uri].version == version,
    ensures
        after_complete(s, uri, version, Option::None).pending[uri] == Seq::<
            DiagnosticView,
        >::empty(),
        after_complete(s, uri, version, Option::None).store[uri].diagnostics == Seq::<
            DiagnosticView,
        >::empty(),
{
}

/// Identical text at increasing versions publishes identical diagnostics:
/// changing a document twice to the same text, each change's analysis
/// completing in turn with the analyzer's outcome for that text, leaves the
/// same diagnostics stored and pending as the first change alone.
pub proof fn lemma_update_idempotent(
    s: SessionView,
    uri: Seq<char>,
    text: Seq<char>,
    v1: u64,
    v2: u64,
    o: Option<ParseReportView>,
)
    requires
        v1 < v2,
    ensures
        ({
            let once = after_complete(after_update(s, uri, text, v1), uri, v1, o);
            let twice = after_complete(after_update(once, uri, text, v2), uri, v2, o);
            &&& twice.pending[uri] == once.pending[uri]
            &&& twice.store[uri].text == once.store[uri].text
            &&& twice.store[uri].diagnostics == once.store[uri].diagnostics
        }),
{
}

/// Published diagnostics are monotone in the document version: when the
/// store holds version `v2` and the analyses for an older `v1` and for `v2`
/// complete in either order, the outcome is the same, and what ends up
/// pending is `v2`'s diagnostics — the stale result never overwrites them.
pub proof fn lemma_version_monotonic(
    s: SessionView,
    uri: Seq<char>,
    v1: u64,
    v2: u64,
    o1: Option<ParseReportView>,
    o2: Option<ParseReportView>,
)
    requires
        s.store.contains_key(uri),
        s.store[uri].version == v2,
        v1 < v2,
    ensures
        after_complete(after_complete(s, uri, v2, o2), uri, v1, o1) == after_complete(
            after_complete(s, uri, v1, o1),
            uri,
            v2,
            o2,
        ),
        after_complete(after_complete(s, uri, v2, o2), uri, v1, o1).pending[uri]
            == diagnostics_spec(s.store[uri].text, o2),
{
    assert(after_complete(s, uri, v1, o1) == s);
}

/// A close removes the document — `get` then finds nothing — and the last
/// payload scheduled for the URI is the empty diagnostic set.
pub proof fn lemma_close_clears(s: SessionView, uri: Seq<char>)
    ensures
        !after_close(s, uri).store.contains_key(uri),
        after_close(s, uri).pending[uri] == Seq::<DiagnosticView>::empty(),
{
}

/// An analysis that finishes after its document closed is discarded whole:
/// nothing is stored and nothing is published for the stale content.
pub proof fn lemma_result_after_close_discarded(
    s: SessionView,
    uri: Seq<char>,
    version: u64,
    o: Option<ParseReportView>,
)
    requires
        !s.store.contains_key(uri),
    ensures
        after_complete(s, uri, version, o) == s,
{
}

} // verus!
