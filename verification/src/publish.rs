//! Coalescing of outgoing diagnostic payloads.
//!
//! Rapid edits schedule diagnostics for the same URI many times in a short
//! window. The publisher keeps at most one pending payload per URI, each
//! `schedule` replacing the previous one, so that whoever drains it — after a
//! debounce wait that lives outside this crate — sends a single notification
//! carrying the most recently scheduled diagnostics. No payload is ever
//! superseded by an older one: the pending entry is always the last
//! scheduled.

use vstd::prelude::*;
use vstd::hash_map::StringHashMap;
use crate::analysis::Diagnostic;
use crate::analysis::DiagnosticView;
use crate::analysis::diags_view;
use crate::document::clone_diags;

verus! {

/// The pending diagnostic payloads, at most one per URI.
pub struct Publisher {
    pending: StringHashMap<Vec<Diagnostic>>,
}

impl View for Publisher {
    type V = Map<Seq<char>, Seq<DiagnosticView>>;

    closed spec fn view(&self) -> Map<Seq<char>, Seq<DiagnosticView>> {
        self.pending@.map_values(|v: Vec<Diagnostic>| diags_view(v@))
    }
}

impl Publisher {
    /// A publisher with nothing pending.
    pub fn new() -> (r: Self)
        ensures
            r@ == Map::<Seq<char>, Seq<DiagnosticView>>::empty(),
    {
        let r = Publisher { pending: StringHashMap::new() };
        proof {
            assert(r@ =~= Map::<Seq<char>, Seq<DiagnosticView>>::empty());
        }
        r
    }

    /// Schedules `diagnostics` as the payload to publish for `uri`,
    /// replacing any payload scheduled earlier and not yet taken.
    pub fn schedule(&mut self, uri: String, diagnostics: Vec<Diagnostic>)
        ensures
            final(self)@ == old(self)@.insert(uri@, diags_view(diagnostics@)),
    {
        let ghost uri_view = uri@;
        let ghost diag_view = diags_view(diagnostics@);
        self.pending.insert(uri, diagnostics);
        proof {
            assert(self@ =~~= old(self)@.insert(uri_view, diag_view));
        }
    }

    /// The payload waiting to be published for `uri`, if any.
    pub fn pending(&self, uri: &str) -> (r: Option<&Vec<Diagnostic>>)
        ensures
            match r {
                Option::Some(v) => self@.contains_key(uri@) && diags_view(v@) == self@[uri@],
                Option::None => !self@.contains_key(uri@),
            },
    {
        self.pending.get(uri)
    }

    /// Removes and returns the payload waiting for `uri`: exactly what the
    /// latest `schedule` for it carried, or `None` when nothing is pending.
    pub fn take(&mut self, uri: &str) -> (r: Option<Vec<Diagnostic>>)
        ensures
            final(self)@ == old(self)@.remove(uri@),
            match r {
                Option::Some(v) => old(self)@.contains_key(uri@) && diags_view(v@) == old(
                    self,
                )@[uri@],
                Option::None => !old(self)@.contains_key(uri@),
            },
    {
        let r = match self.pending.get(uri) {
            Option::Some(v) => Option::Some(clone_diags(v)),
            Option::None => Option::None,
        };
        self.pending.remove(uri);
        proof {
            assert(self@ =~= old(self)@.remove(uri@));
        }
        r
    }
}

} // verus!
