//! Rule orchestration: combine the loop scope tracker, the operation
//! classifier and the receiver type matcher for each visited call
//! expression, and hand full matches to the diagnostic emitter.

use vstd::prelude::*;

verus! {

use crate::classify::is_query_method;
use crate::classify::is_query_operation;
use crate::finding::build_hint;
use crate::finding::build_message;
use crate::finding::emit;
use crate::finding::finding_message;
use crate::finding::remediation_hint;
use crate::finding::Finding;
use crate::finding::FindingView;
use crate::finding::Severity;
use crate::matcher::is_database_descriptor;
use crate::matcher::is_database_type;
use crate::scope::ImbalancedScopeError;
use crate::scope::LoopScopeTracker;
use crate::site::CallSite;
use crate::site::CallSiteView;
use crate::text::has_substring;

/// A call site produces a finding iff the traversal stands inside a loop,
/// the operation name is a query operation, and the receiver's type was
/// resolved and carries a database marker.
pub open spec fn call_matches(depth: nat, call: CallSiteView) -> bool {
    &&& depth > 0
    &&& is_query_operation(call.operation)
    &&& call.receiver_type is Some
    &&& is_database_descriptor(call.receiver_type->0)
}

/// The finding reported for a matching call site: a warning on the call's
/// span, whose message embeds the operation name and whose hint is the
/// fixed remediation advice.
pub open spec fn finding_for(call: CallSiteView) -> FindingView {
    FindingView {
        severity: Severity::Warning,
        span: call.span,
        message: finding_message(call.operation),
        hint: Some(remediation_hint()),
    }
}

/// Rule entry point for one visited call expression. The three checks run
/// cheapest and most selective first: loop membership, then the operation
/// name, and only then the receiver's type, which is the expensive signal
/// to obtain.
pub fn check_call(tracker: &LoopScopeTracker, call: &CallSite) -> (result: Option<Finding>)
    ensures
        result is Some <==> call_matches(tracker.depth(), call@),
        result matches Some(finding) ==> finding@ == finding_for(call@),
{
    if !tracker.is_inside_loop() {
        return None;
    }
    if !is_query_method(call.operation.as_str()) {
        return None;
    }
    match &call.receiver_type {
        None => None,
        Some(descriptor) => {
            if is_database_type(descriptor) {
                let message = build_message(call.operation.as_str());
                Some(emit(call, message, Some(build_hint())))
            } else {
                None
            }
        },
    }
}

/// Law: outside any loop scope, no finding is produced, whatever the
/// operation name and the receiver type.
pub proof fn lemma_no_finding_outside_loop(call: CallSiteView)
    ensures
        !call_matches(0, call),
{
}

/// Law: a call whose operation name is not in the query-operation set
/// produces no finding, even inside a loop, even on a database-typed
/// receiver.
pub proof fn lemma_no_finding_for_non_query_operation(depth: nat, call: CallSiteView)
    requires
        !is_query_operation(call.operation),
    ensures
        !call_matches(depth, call),
{
}

/// Law: inside a loop, a query operation on a receiver whose resolved
/// type carries a database marker is reported, and the finding's message
/// embeds the operation name verbatim.
pub proof fn lemma_full_match_produces_finding(depth: nat, call: CallSiteView)
    requires
        depth > 0,
        is_query_operation(call.operation),
        call.receiver_type is Some,
        is_database_descriptor(call.receiver_type->0),
    ensures
        call_matches(depth, call),
        has_substring(finding_for(call).message, call.operation),
{
    crate::finding::lemma_message_contains_operation(call.operation);
}

/// One event of the host traversal's stream: the traversal enters or
/// leaves a loop construct, or visits a call expression.
pub enum TraversalEvent {
    EnterLoop,
    ExitLoop,
    Call(CallSite),
}

/// The mathematical image of a [`TraversalEvent`].
pub enum TraversalEventView {
    EnterLoop,
    ExitLoop,
    Call(CallSiteView),
}

impl View for TraversalEvent {
    type V = TraversalEventView;

    open spec fn view(&self) -> TraversalEventView {
        match self {
            TraversalEvent::EnterLoop => TraversalEventView::EnterLoop,
            TraversalEvent::ExitLoop => TraversalEventView::ExitLoop,
            TraversalEvent::Call(call) => TraversalEventView::Call(call@),
        }
    }
}

/// The images of a sequence of traversal events.
pub open spec fn event_views(events: Seq<TraversalEvent>) -> Seq<TraversalEventView> {
    events.map(|i: int, event: TraversalEvent| event@)
}

/// The images of a sequence of findings.
pub open spec fn finding_views(findings: Seq<Finding>) -> Seq<FindingView> {
    findings.map(|i: int, finding: Finding| finding@)
}

/// The findings one traversal produces, visiting `events` in tree order
/// with `depth` loop scopes already open: one finding per matching call
/// site, in visit order — or `None` when the scope events are imbalanced,
/// in which case the whole pass is aborted.
pub open spec fn traversal_findings(events: Seq<TraversalEventView>, depth: nat) -> Option<
    Seq<FindingView>,
>
    decreases events.len(),
{
    if events.len() == 0 {
        Some(Seq::empty())
    } else {
        let rest = events.drop_first();
        match events[0] {
            TraversalEventView::EnterLoop => traversal_findings(rest, depth + 1),
            TraversalEventView::ExitLoop => if depth == 0 {
                None
            } else {
                traversal_findings(rest, (depth - 1) as nat)
            },
            TraversalEventView::Call(call) => match traversal_findings(rest, depth) {
                None => None,
                Some(tail) => if call_matches(depth, call) {
                    Some(seq![finding_for(call)] + tail)
                } else {
                    Some(tail)
                },
            },
        }
    }
}

/// Drive the rule over one traversal's event stream, with a fresh tracker:
/// each parallel traversal branch must run through its own call of this
/// function. Returns the findings of every matching call site in visit
/// order, or the imbalance error when some exit event had no open scope.
pub fn run_traversal(events: &Vec<TraversalEvent>) -> (result: Result<
    Vec<Finding>,
    ImbalancedScopeError,
>)
    ensures
        result matches Ok(findings) ==> traversal_findings(event_views(events@), 0) == Some(
            finding_views(findings@),
        ),
        result is Err ==> traversal_findings(event_views(events@), 0) is None,
{
    let ghost all = event_views(events@);
    let mut tracker = LoopScopeTracker::new();
    let mut findings: Vec<Finding> = Vec::new();
    let mut idx: usize = 0;
    proof {
        assert(all.subrange(0, all.len() as int) =~= all);
        assert(finding_views(findings@) =~= Seq::<FindingView>::empty());
        match traversal_findings(all, 0) {
            None => {},
            Some(tail) => {
                assert(finding_views(findings@) + tail =~= tail);
            },
        }
    }
    while idx < events.len()
        invariant
            idx <= events.len(),
            tracker.depth() <= idx,
            all == event_views(events@),
            all.len() == events@.len(),
            traversal_findings(all, 0) == (match traversal_findings(
                all.subrange(idx as int, all.len() as int),
                tracker.depth(),
            ) {
                Some(tail) => Some(finding_views(findings@) + tail),
                None => None::<Seq<FindingView>>,
            }),
        decreases events.len() - idx,
    {
        let ghost depth = tracker.depth();
        let ghost suffix = all.subrange(idx as int, all.len() as int);
        let ghost rest = all.subrange(idx as int + 1, all.len() as int);
        proof {
            assert(suffix[0] == events@[idx as int]@);
            assert(suffix.drop_first() =~= rest);
        }
        let event = &events[idx];
        match event {
            TraversalEvent::EnterLoop => {
                proof {
                    assert(traversal_findings(suffix, depth) == traversal_findings(
                        rest,
                        depth + 1,
                    ));
                }
                tracker.enter_loop();
            },
            TraversalEvent::ExitLoop => {
                match tracker.exit_loop() {
                    Ok(()) => {
                        proof {
                            assert(traversal_findings(suffix, depth) == traversal_findings(
                                rest,
                                (depth - 1) as nat,
                            ));
                        }
                    },
                    Err(imbalance) => {
                        proof {
                            assert(traversal_findings(suffix, 0nat) is None);
                        }
                        return Err(imbalance);
                    },
                }
            },
            TraversalEvent::Call(call) => {
                proof {
                    assert(suffix[0] == TraversalEventView::Call(call@));
                }
                match check_call(&tracker, call) {
                    Some(finding) => {
                        proof {
                            assert(finding_views(findings@.push(finding)) =~= finding_views(
                                findings@,
                            ).push(finding@));
                            match traversal_findings(rest, depth) {
                                None => {},
                                Some(tail) => {
                                    assert(traversal_findings(suffix, depth) == Some(
                                        seq![finding_for(call@)] + tail,
                                    ));
                                    assert(finding_views(findings@).push(finding@) + tail
                                        =~= finding_views(findings@) + (seq![finding_for(call@)]
                                        + tail));
                                },
                            }
                        }
                        findings.push(finding);
                    },
                    None => {
                        proof {
                            match traversal_findings(rest, depth) {
                                None => {},
                                Some(tail) => {
                                    assert(traversal_findings(suffix, depth) == Some(tail));
                                },
                            }
                        }
                    },
                }
            },
        }
        idx = idx + 1;
    }
    proof {
        assert(all.subrange(idx as int, all.len() as int) =~= Seq::<TraversalEventView>::empty());
        assert(finding_views(findings@) + Seq::<FindingView>::empty() =~= finding_views(findings@));
    }
    Ok(findings)
}

} // verus!
