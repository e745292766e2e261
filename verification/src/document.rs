//! The table of open documents.
//!
//! Documents are keyed by the client's opaque URI and hold the current full
//! text, the client-supplied version, and the diagnostics of the most
//! recently completed analysis. Reads hand out a reference to the stored
//! document (or a cloned text), so an analysis can proceed against a stable
//! snapshot while newer edits are stored; `get` on a closed or never-opened
//! URI returns `None`, which callers treat as nothing to report.

use vstd::prelude::*;
use vstd::hash_map::StringHashMap;
use crate::analysis::Diagnostic;
use crate::analysis::DiagnosticView;
use crate::analysis::diags_view;

verus! {

/// One open document: its current text, the version the client attached to
/// that text, and the diagnostics of the last completed analysis of it.
#[derive(Debug)]
pub struct Document {
    pub text: String,
    pub version: u64,
    pub diagnostics: Vec<Diagnostic>,
}

/// The mathematical content of a `Document`.
#[verifier::ext_equal]
pub struct DocumentView {
    pub text: Seq<char>,
    pub version: u64,
    pub diagnostics: Seq<DiagnosticView>,
}

impl View for Document {
    type V = DocumentView;

    open spec fn view(&self) -> DocumentView {
        DocumentView {
            text: self.text@,
            version: self.version,
            diagnostics: diags_view(self.diagnostics@),
        }
    }
}

/// Clones a diagnostics list, preserving its view.
pub fn clone_diags(v: &Vec<Diagnostic>) -> (r: Vec<Diagnostic>)
    ensures
        diags_view(r@) == diags_view(v@),
{
    let mut r: Vec<Diagnostic> = Vec::new();
    let mut i: usize = 0;
    while i < v.len()
        invariant
            i <= v@.len(),
            r@.len() == i,
            forall|j: int| 0 <= j < i ==> r@[j]@ == v@[j]@,
        decreases v@.len() - i,
    {
        r.push(v[i].clone());
        i = i + 1;
    }
    proof {
        assert(diags_view(r@) =~= diags_view(v@));
    }
    r
}

impl Clone for Document {
    fn clone(&self) -> (r: Self)
        ensures
            r@ == self@,
    {
        Document {
            text: self.text.clone(),
            version: self.version,
            diagnostics: clone_diags(&self.diagnostics),
        }
    }
}

/// The open documents, keyed by URI.
pub struct DocumentStore {
    docs: StringHashMap<Document>,
}

impl View for DocumentStore {
    type V = Map<Seq<char>, DocumentView>;

    closed spec fn view(&self) -> Map<Seq<char>, DocumentView> {
        self.docs@.map_values(|d: Document| d@)
    }
}

impl DocumentStore {
    /// An empty store: no document is open.
    pub fn new() -> (r: Self)
        ensures
            r@ == Map::<Seq<char>, DocumentView>::empty(),
    {
        let r = DocumentStore { docs: StringHashMap::new() };
        proof {
            assert(r@ =~= Map::<Seq<char>, DocumentView>::empty());
        }
        r
    }

    /// Opens `uri` with `text` at `version`. A fresh open starts with no
    /// diagnostics; opening an already-open URI replaces it wholesale.
    pub fn open(&mut self, uri: String, text: String, version: u64)
        ensures
            final(self)@ == old(self)@.insert(
                uri@,
                DocumentView {
                    text: text@,
                    version,
                    diagnostics: Seq::<DiagnosticView>::empty(),
                },
            ),
    {
        let ghost uri_view = uri@;
        let ghost text_view = text@;
        let doc = Document { text, version, diagnostics: Vec::new() };
        self.docs.insert(uri, doc);
        proof {
            assert(self@ =~~= old(self)@.insert(
                uri_view,
                DocumentView {
                    text: text_view,
                    version,
                    diagnostics: Seq::<DiagnosticView>::empty(),
                },
            ));
        }
    }

    /// Stores `text` at `version` for `uri`. On an unknown URI this is an
    /// implicit open; on an open one the text and version change while the
    /// diagnostics of the last completed analysis stay until a newer analysis
    /// completes.
    pub fn update(&mut self, uri: &str, text: String, version: u64)
        ensures
            final(self)@ == old(self)@.insert(
                uri@,
                DocumentView {
                    text: text@,
                    version,
                    diagnostics: if old(self)@.contains_key(uri@) {
                        old(self)@[uri@].diagnostics
                    } else {
                        Seq::<DiagnosticView>::empty()
                    },
                },
            ),
    {
        let ghost text_view = text@;
        let diagnostics = match self.docs.get(uri) {
            Option::Some(doc) => clone_diags(&doc.diagnostics),
            Option::None => Vec::new(),
        };
        let doc = Document { text, version, diagnostics };
        self.docs.insert(uri.to_owned(), doc);
        proof {
            assert(self@ =~~= old(self)@.insert(
                uri@,
                DocumentView {
                    text: text_view,
                    version,
                    diagnostics: if old(self)@.contains_key(uri@) {
                        old(self)@[uri@].diagnostics
                    } else {
                        Seq::<DiagnosticView>::empty()
                    },
                },
            ));
        }
    }

    /// Removes `uri` from the store; unknown URIs are left as they are.
    pub fn close(&mut self, uri: &str)
        ensures
            final(self)@ == old(self)@.remove(uri@),
    {
        self.docs.remove(uri);
        proof {
            assert(self@ =~= old(self)@.remove(uri@));
        }
    }

    /// The document open at `uri`, or `None` when it is closed or was never
    /// opened — nothing to report, not a fault.
    pub fn get(&self, uri: &str) -> (r: Option<&Document>)
        ensures
            match r {
                Option::Some(doc) => self@.contains_key(uri@) && doc@ == self@[uri@],
                Option::None => !self@.contains_key(uri@),
            },
    {
        self.docs.get(uri)
    }

    /// A stable copy of the text open at `uri` and its version, for an
    /// analysis to run against while newer edits are stored.
    pub fn snapshot(&self, uri: &str) -> (r: Option<(String, u64)>)
        ensures
            match r {
                Option::Some(s) => self@.contains_key(uri@) && s.0@ == self@[uri@].text && s.1
                    == self@[uri@].version,
                Option::None => !self@.contains_key(uri@),
            },
    {
        match self.docs.get(uri) {
            Option::Some(doc) => Option::Some((doc.text.clone(), doc.version)),
            Option::None => Option::None,
        }
    }

    /// Attaches the diagnostics of a completed analysis to `uri`, but only
    /// when that analysis ran against the version still stored; a result for
    /// any other version leaves the store unchanged.
    pub fn set_diagnostics(&mut self, uri: &str, version: u64, diagnostics: Vec<Diagnostic>)
        ensures
            final(self)@ == if old(self)@.contains_key(uri@) && old(self)@[uri@].version
                == version {
                old(self)@.insert(
                    uri@,
                    DocumentView {
                        text: old(self)@[uri@].text,
                        version,
                        diagnostics: diags_view(diagnostics@),
                    },
                )
            } else {
                old(self)@
            },
    {
        let ghost diag_view = diags_view(diagnostics@);
        let updated = match self.docs.get(uri) {
            Option::Some(doc) => {
                if doc.version == version {
                    Option::Some(Document { text: doc.text.clone(), version, diagnostics })
                } else {
                    Option::None
                }
            },
            Option::None => Option::None,
        };
        match updated {
            Option::Some(doc) => {
                self.docs.insert(uri.to_owned(), doc);
                proof {
                    assert(self@ =~~= old(self)@.insert(
                        uri@,
                        DocumentView {
                            text: old(self)@[uri@].text,
                            version,
                            diagnostics: diag_view,
                        },
                    ));
                }
            },
            Option::None => {
                proof {
                    assert(self@ =~= old(self)@);
                }
            },
        }
    }
}

} // verus!
