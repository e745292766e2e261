//! Shaping an analysis outcome into protocol diagnostics.
//!
//! The external analyzer parses a document's text and reports either success
//! or one error with a message and, when it can tell, a source range in its
//! own 1-based coordinates. That outcome arrives here as plain values; this
//! module turns it into the diagnostics the protocol wants: an empty list on
//! success, and on failure a single `Error` diagnostic whose range is
//! re-derived in protocol coordinates, falling back to a zero-length range at
//! the document start when the analyzer carried no usable range.

use vstd::prelude::*;
use crate::position::NativeRange;
use crate::position::ProtocolRange;
use crate::position::document_start_range;
use crate::position::protocol_range;
use crate::position::to_protocol_range;

verus! {

/// How serious a diagnostic is.
#[derive(PartialEq, Eq, Structural, Clone, Copy, Debug)]
pub enum Severity {
    Error,
    Warning,
    Info,
    Hint,
}

/// A reported issue, attached to a range of the document in protocol
/// coordinates.
#[derive(Debug)]
pub struct Diagnostic {
    pub range: ProtocolRange,
    pub severity: Severity,
    pub message: String,
}

/// The mathematical content of a `Diagnostic`.
#[verifier::ext_equal]
pub struct DiagnosticView {
    pub range: ProtocolRange,
    pub severity: Severity,
    pub message: Seq<char>,
}

impl View for Diagnostic {
    type V = DiagnosticView;

    open spec fn view(&self) -> DiagnosticView {
        DiagnosticView { range: self.range, severity: self.severity, message: self.message@ }
    }
}

impl Clone for Diagnostic {
    fn clone(&self) -> (r: Self)
        ensures
            r@ == self@,
    {
        Diagnostic { range: self.range, severity: self.severity, message: self.message.clone() }
    }
}

/// What the analyzer reported for one failed parse: its message, and the
/// source range of the error when it carried one.
#[derive(Debug)]
pub struct ParseReport {
    pub message: String,
    pub range: Option<NativeRange>,
}

/// The mathematical content of a `ParseReport`.
#[verifier::ext_equal]
pub struct ParseReportView {
    pub message: Seq<char>,
    pub range: Option<NativeRange>,
}

impl View for ParseReport {
    type V = ParseReportView;

    open spec fn view(&self) -> ParseReportView {
        ParseReportView { message: self.message@, range: self.range }
    }
}

impl Clone for ParseReport {
    fn clone(&self) -> (r: Self)
        ensures
            r@ == self@,
    {
        ParseReport { message: self.message.clone(), range: self.range }
    }
}

/// The views of a sequence of diagnostics.
pub open spec fn diags_view(v: Seq<Diagnostic>) -> Seq<DiagnosticView> {
    v.map_values(|d: Diagnostic| d@)
}

/// The view of an analysis outcome: `None` on success, the report's view on
/// failure.
pub open spec fn outcome_view(o: Option<ParseReport>) -> Option<ParseReportView> {
    match o {
        Option::None => Option::None,
        Option::Some(rep) => Option::Some(rep@),
    }
}

/// The protocol range a failed parse is reported at: the analyzer's range
/// converted, when it carried a well-formed one, else the zero-length range
/// at the document start.
pub open spec fn report_range(text: Seq<char>, range: Option<NativeRange>) -> ProtocolRange {
    match range {
        Option::Some(r) => if r.wf() {
            protocol_range(text, r)
        } else {
            document_start_range()
        },
        Option::None => document_start_range(),
    }
}

/// The diagnostic a failed parse of `text` produces.
pub open spec fn diagnostic_spec(text: Seq<char>, rep: ParseReportView) -> DiagnosticView {
    DiagnosticView {
        range: report_range(text, rep.range),
        severity: Severity::Error,
        message: rep.message,
    }
}

/// The diagnostics an analysis outcome for `text` produces: none on success,
/// exactly one `Error` on failure.
pub open spec fn diagnostics_spec(text: Seq<char>, o: Option<ParseReportView>) -> Seq<
    DiagnosticView,
> {
    match o {
        Option::None => Seq::<DiagnosticView>::empty(),
        Option::Some(rep) => seq![diagnostic_spec(text, rep)],
    }
}

/// Turns the analyzer's outcome for `text` into protocol diagnostics: the
/// empty list on success, one `Error` diagnostic on failure, its range
/// re-derived in 0-based, UTF-16-column protocol coordinates.
pub fn run_checks(text: &str, outcome: &Option<ParseReport>) -> (r: Vec<Diagnostic>)
    requires
        2 * text@.len() <= usize::MAX,
    ensures
        diags_view(r@) == diagnostics_spec(text@, outcome_view(*outcome)),
        r@.len() == 0 <==> *outcome is None,
{
    let mut r: Vec<Diagnostic> = Vec::new();
    match outcome {
        Option::None => {
            proof {
                assert(diags_view(r@) =~= diagnostics_spec(text@, outcome_view(*outcome)));
            }
        },
        Option::Some(rep) => {
            let range = match rep.range {
                Option::Some(nr) => {
                    if 1 <= nr.start.line && 1 <= nr.start.column && 1 <= nr.end.line && 1
                        <= nr.end.column {
                        to_protocol_range(text, nr)
                    } else {
                        ProtocolRange::at_document_start()
                    }
                },
                Option::None => ProtocolRange::at_document_start(),
            };
            r.push(Diagnostic { range, severity: Severity::Error, message: rep.message.clone() });
            proof {
                assert(diags_view(r@) =~= diagnostics_spec(text@, outcome_view(*outcome)));
            }
        },
    }
    r
}

/// A failed parse at native location (line `L`, column `C`) is reported at
/// protocol position (`L - 1`, `C' - 1`): one diagnostic, severity `Error`,
/// whose range starts at the 0-based line and at the UTF-16 length of the
/// first `C - 1` characters of line `L` — the column re-counted in UTF-16
/// code units, not carried over numerically.
pub proof fn lemma_error_position(text: Seq<char>, rep: ParseReportView, nr: NativeRange)
    requires
        rep.range == Option::Some(nr),
        nr.wf(),
        nr.start.column - 1 <= crate::position::line_at(text, nr.start.line - 1).len(),
        2 * text.len() <= usize::MAX,
    ensures
        diagnostics_spec(text, Option::Some(rep)).len() == 1,
        diagnostics_spec(text, Option::Some(rep))[0].severity == Severity::Error,
        diagnostics_spec(text, Option::Some(rep))[0].message == rep.message,
        diagnostics_spec(text, Option::Some(rep))[0].range.start.line == nr.start.line - 1,
        diagnostics_spec(text, Option::Some(rep))[0].range.start.character
            == crate::position::utf16_units(
            crate::position::line_at(text, nr.start.line - 1).take(nr.start.column - 1),
        ),
{
    crate::position::lemma_line_at_len(text, nr.start.line - 1);
    crate::position::lemma_utf16_units_bounds(
        crate::position::line_at(text, nr.start.line - 1).take(nr.start.column - 1),
    );
}

} // verus!
