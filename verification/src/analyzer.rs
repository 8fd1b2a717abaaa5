//! One analysis pass over the document, as a step function from external
//! events to index updates and actions.
//!
//! The surrounding service runs the pass: it calls the external compiler on
//! the document text, converts the tree it may return, and hands the outcome
//! in as an event; the returned action tells it to run the external loader
//! next, or to publish a diagnostics list and end the pass.  Every pass
//! publishes exactly one diagnostics list: one error diagnostic when the
//! compiler or the loader failed, an empty list otherwise.  The symbol index
//! is replaced wholesale as soon as a tree is in hand — even when validation
//! later fails — and is left untouched when compilation itself failed.

use vstd::prelude::*;

use crate::index::SymbolIndex;
use crate::locator::error_line;
use crate::locator::located_line;
use crate::walker::clone_bytes;
use crate::walker::extract_symbols;
use crate::walker::symbols_of;
use crate::walker::Node;
use crate::walker::SymbolView;

verus! {

/// Upper column bound of a diagnostic's range: no column information is in
/// the source messages, so a diagnostic underlines the line from column 0 to
/// this fixed wide bound.
pub const FULL_LINE_SPAN: u32 = 100;

/// One positional error shown to the user.  Severity is fixed at error.
#[derive(Clone, Debug, PartialEq, Eq)]
pub struct Diagnostic {
    /// Zero-based line the message points at.
    pub line: u32,
    /// The message text, as the external tool produced it.
    pub message: Vec<u8>,
}

/// Mathematical image of a `Diagnostic`.
#[verifier::ext_equal]
pub struct DiagnosticView {
    pub line: u32,
    pub message: Seq<u8>,
}

impl View for Diagnostic {
    type V = DiagnosticView;

    open spec fn view(&self) -> DiagnosticView {
        DiagnosticView { line: self.line, message: self.message@ }
    }
}

/// The outcome of an external call, handed in by the surrounding service.
pub enum AnalysisEvent {
    /// The external compiler produced a program tree.
    CompileSucceeded(Node),
    /// The external compiler failed with this message.
    CompileFailed(Vec<u8>),
    /// The external loader accepted the tree.
    ValidationSucceeded,
    /// The external loader rejected the tree with this message.
    ValidationFailed(Vec<u8>),
}

/// What the surrounding service must do next.
pub enum AnalysisAction {
    /// Hand the tree to the external loader and report its outcome.
    RunValidation,
    /// Publish exactly this diagnostics list; the pass is over.
    Publish(Vec<Diagnostic>),
}

/// The action publishes exactly one error diagnostic carrying `msg`, located
/// by the line marker scan.
pub open spec fn publishes_single_error(action: AnalysisAction, msg: Seq<u8>) -> bool {
    match action {
        AnalysisAction::Publish(diags) => {
            &&& diags@.len() == 1
            &&& diags@[0]@ == (DiagnosticView { line: located_line(msg), message: msg })
        },
        _ => false,
    }
}

/// The action publishes an empty diagnostics list (a valid "no errors"
/// publish, clearing prior error display).
pub open spec fn publishes_no_errors(action: AnalysisAction) -> bool {
    match action {
        AnalysisAction::Publish(diags) => diags@.len() == 0,
        _ => false,
    }
}

/// The diagnostic a failed external call turns into: positioned by the line
/// marker in the message, carrying the message itself.
pub fn diagnostic_for(message: &Vec<u8>) -> (d: Diagnostic)
    ensures
        d@ == (DiagnosticView { line: located_line(message@), message: message@ }),
{
    let d = Diagnostic { line: error_line(message.as_slice()), message: clone_bytes(message) };
    proof {
        assert(d@ =~= DiagnosticView { line: located_line(message@), message: message@ });
    }
    d
}

/// Advance one analysis pass by one external event.
///
/// A tree from the compiler replaces the index with the tree's symbols,
/// unconditionally, and sends the pass on to validation.  A compiler failure
/// leaves the index untouched and publishes that one error.  A loader
/// verdict never touches the index: a rejection publishes that one error, an
/// acceptance publishes the empty list.
pub fn analysis_step(index: &mut SymbolIndex, event: AnalysisEvent) -> (action: AnalysisAction)
    ensures
        (event matches AnalysisEvent::CompileSucceeded(tree) ==> {
            &&& final(index)@ == symbols_of(tree)
            &&& action is RunValidation
        }),
        (event matches AnalysisEvent::CompileFailed(msg) ==> {
            &&& final(index)@ == old(index)@
            &&& publishes_single_error(action, msg@)
        }),
        (event is ValidationSucceeded ==> {
            &&& final(index)@ == old(index)@
            &&& publishes_no_errors(action)
        }),
        (event matches AnalysisEvent::ValidationFailed(msg) ==> {
            &&& final(index)@ == old(index)@
            &&& publishes_single_error(action, msg@)
        }),
{
    match event {
        AnalysisEvent::CompileSucceeded(tree) => {
            let symbols = extract_symbols(&tree);
            index.replace(symbols);
            AnalysisAction::RunValidation
        },
        AnalysisEvent::CompileFailed(msg) => {
            let diags: Vec<Diagnostic> = vec![diagnostic_for(&msg)];
            AnalysisAction::Publish(diags)
        },
        AnalysisEvent::ValidationSucceeded => {
            AnalysisAction::Publish(Vec::new())
        },
        AnalysisEvent::ValidationFailed(msg) => {
            let diags: Vec<Diagnostic> = vec![diagnostic_for(&msg)];
            AnalysisAction::Publish(diags)
        },
    }
}

/// A pass whose compilation succeeded but whose validation failed still
/// leaves the freshly extracted symbols in the index — completion stays
/// available during transient semantic errors — and publishes exactly one
/// diagnostic, the loader's error.
pub proof fn lemma_validation_failure_keeps_fresh_symbols(
    tree: Node,
    after_compile: Seq<SymbolView>,
    after_validation: Seq<SymbolView>,
    action: AnalysisAction,
    msg: Seq<u8>,
)
    requires
        after_compile == symbols_of(tree),
        after_validation == after_compile,
        publishes_single_error(action, msg),
    ensures
        after_validation == symbols_of(tree),
        action matches AnalysisAction::Publish(diags) && diags@.len() == 1,
{
}

/// Replacement is wholesale: the index a successful pass leaves behind is a
/// function of that pass's tree alone.  Whatever an earlier pass had put
/// there, after a pass over `second` the index holds exactly `second`'s
/// symbols — in particular, a tree that declares nothing empties it.
pub proof fn lemma_passes_replace_wholesale(
    first: Node,
    second: Node,
    after_first: Seq<SymbolView>,
    after_second: Seq<SymbolView>,
)
    requires
        after_first == symbols_of(first),
        after_second == symbols_of(second),
    ensures
        after_second == symbols_of(second),
        symbols_of(second).len() == 0 ==> after_second =~= Seq::<SymbolView>::empty(),
{
}

} // verus!
