//! Diagnostic emitter: builds the structured finding for a matched call
//! site. No filtering lives here; every suppression decision is made
//! before `emit` is called.

use vstd::prelude::*;

verus! {

use crate::site::CallSite;
use crate::site::Span;
use crate::text::has_substring;
use crate::text::occurs_at;
use vstd::string::StrSliceExecFns;
use vstd::string::StringExecFns;

/// Severity of a finding. This rule reports every finding as a warning.
#[derive(Clone, Copy, Debug, PartialEq, Eq, Structural)]
pub enum Severity {
    Warning,
}

/// One diagnostic record: the offending span, a message embedding the
/// operation name, and an optional remediation hint. Immutable once
/// created; ownership passes to the host's reporting collaborator.
#[derive(Debug)]
pub struct Finding {
    pub severity: Severity,
    pub span: Span,
    pub message: String,
    pub hint: Option<String>,
}

/// The mathematical image of a [`Finding`]: its texts as character
/// sequences.
pub struct FindingView {
    pub severity: Severity,
    pub span: Span,
    pub message: Seq<char>,
    pub hint: Option<Seq<char>>,
}

impl View for Finding {
    type V = FindingView;

    open spec fn view(&self) -> FindingView {
        FindingView {
            severity: self.severity,
            span: self.span,
            message: self.message@,
            hint: match self.hint {
                Some(hint) => Some(hint@),
                None => None,
            },
        }
    }
}

/// The message reported for a query operation named `operation` found
/// inside a loop.
pub open spec fn finding_message(operation: Seq<char>) -> Seq<char> {
    "database query operation '"@ + operation + "' called inside a loop"@
}

/// The fixed remediation hint: batch via set-membership clauses, or
/// collect identifiers before the loop.
pub open spec fn remediation_hint() -> Seq<char> {
    "consider batching queries using WHERE IN clauses or collecting IDs first"@
}

/// Build the warning message embedding the operation's name.
pub fn build_message(operation: &str) -> (message: String)
    ensures
        message@ == finding_message(operation@),
{
    let mut message = String::from_str("database query operation '");
    message.append(operation);
    message.append("' called inside a loop");
    message
}

/// Build the fixed remediation hint.
pub fn build_hint() -> (hint: String)
    ensures
        hint@ == remediation_hint(),
{
    String::from_str("consider batching queries using WHERE IN clauses or collecting IDs first")
}

/// The finding `emit` constructs from a span and the supplied texts.
pub open spec fn emitted_finding(span: Span, message: Seq<char>, hint: Option<Seq<char>>) -> FindingView {
    FindingView { severity: Severity::Warning, span, message, hint }
}

/// Pure construction of a finding from the call site's span and the
/// supplied message and hint; severity is fixed at warning.
pub fn emit(site: &CallSite, message: String, hint: Option<String>) -> (finding: Finding)
    ensures
        finding@ == emitted_finding(site@.span, message@, match hint {
            Some(hint) => Some(hint@),
            None => None::<Seq<char>>,
        }),
{
    Finding { severity: Severity::Warning, span: site.span, message, hint }
}

/// Law: the reported message embeds the operation name verbatim — it
/// occurs right after the fixed message prefix.
pub proof fn lemma_message_contains_operation(operation: Seq<char>)
    ensures
        occurs_at(
            finding_message(operation),
            operation,
            "database query operation '"@.len() as int,
        ),
        has_substring(finding_message(operation), operation),
{
    let prefix = "database query operation '"@;
    let full = finding_message(operation);
    assert(full.subrange(prefix.len() as int, prefix.len() + operation.len() as int)
        =~= operation);
}

} // verus!
