//! Loop scope tracking: whether the host's traversal currently stands
//! inside a loop body.

use vstd::prelude::*;

verus! {

/// Raised when `exit_loop` is called with no loop scope open. An imbalance
/// between enter and exit events is a host-integration bug, not user data:
/// the rule's pass over the current file is aborted rather than continuing
/// with corrupted scope state.
#[derive(Clone, Copy, Debug, PartialEq, Eq, Structural)]
pub struct ImbalancedScopeError;

/// One loop-scoping event of the host's traversal: it enters or leaves a
/// loop construct (counted, conditional, or iterator-driven — the tracker
/// does not distinguish loop kinds).
#[derive(Clone, Copy, Debug, PartialEq, Eq, Structural)]
pub enum ScopeEvent {
    Enter,
    Exit,
}

/// The scope depth reached after applying `events` in order, starting from
/// `depth` open scopes; `None` when some exit event found no scope to close.
pub open spec fn scope_depth_after(events: Seq<ScopeEvent>, depth: nat) -> Option<nat>
    decreases events.len(),
{
    if events.len() == 0 {
        Some(depth)
    } else {
        match events[0] {
            ScopeEvent::Enter => scope_depth_after(events.drop_first(), depth + 1),
            ScopeEvent::Exit => if depth == 0 {
                None
            } else {
                scope_depth_after(events.drop_first(), (depth - 1) as nat)
            },
        }
    }
}

/// `count` copies of `event` in a row.
pub open spec fn repeated_event(event: ScopeEvent, count: nat) -> Seq<ScopeEvent> {
    Seq::new(count, |i: int| event)
}

/// Tracks whether the traversal currently stands inside a loop. Loop scopes
/// are opaque markers, so the stack of open scopes is kept as its height
/// alone; "inside a loop" means the stack is non-empty. Each traversal
/// branch must use its own tracker: the stack is not synchronized.
pub struct LoopScopeTracker {
    frames: usize,
}

impl LoopScopeTracker {
    /// The number of loop scopes currently open.
    pub closed spec fn depth(self) -> nat {
        self.frames as nat
    }

    /// A fresh tracker: every traversal starts outside any loop.
    pub fn new() -> (tracker: Self)
        ensures
            tracker.depth() == 0,
    {
        LoopScopeTracker { frames: 0 }
    }

    /// Push one frame: the traversal entered a loop body.
    pub fn enter_loop(&mut self)
        requires
            old(self).depth() < usize::MAX,
        ensures
            final(self).depth() == old(self).depth() + 1,
    {
        self.frames = self.frames + 1;
    }

    /// Pop exactly one frame: the traversal left a loop body. Fails, leaving
    /// the tracker unchanged, when no scope is open — an exit event without
    /// a matching prior enter.
    pub fn exit_loop(&mut self) -> (result: Result<(), ImbalancedScopeError>)
        ensures
            old(self).depth() == 0 ==> result is Err && final(self).depth() == 0,
            old(self).depth() > 0 ==> result is Ok && final(self).depth() == old(self).depth() - 1,
    {
        if self.frames == 0 {
            Err(ImbalancedScopeError)
        } else {
            self.frames = self.frames - 1;
            Ok(())
        }
    }

    /// True iff at least one loop scope is open.
    pub fn is_inside_loop(&self) -> (inside: bool)
        ensures
            inside == (self.depth() > 0),
    {
        self.frames > 0
    }
}

/// Applying `a` then `b` reaches the same depth as applying `a + b` at once,
/// and an imbalance in `a` is an imbalance of the whole.
proof fn lemma_scope_depth_after_append(a: Seq<ScopeEvent>, b: Seq<ScopeEvent>, depth: nat)
    ensures
        scope_depth_after(a + b, depth) == (match scope_depth_after(a, depth) {
            Some(d) => scope_depth_after(b, d),
            None => None::<nat>,
        }),
    decreases a.len(),
{
    if a.len() == 0 {
        assert(a + b =~= b);
    } else {
        assert((a + b)[0] == a[0]);
        assert((a + b).drop_first() =~= a.drop_first() + b);
        match a[0] {
            ScopeEvent::Enter => {
                lemma_scope_depth_after_append(a.drop_first(), b, depth + 1);
            },
            ScopeEvent::Exit => {
                if depth > 0 {
                    lemma_scope_depth_after_append(a.drop_first(), b, (depth - 1) as nat);
                }
            },
        }
    }
}

/// Enter events never fail and raise the depth by their number.
proof fn lemma_scope_depth_after_enters(count: nat, depth: nat)
    ensures
        scope_depth_after(repeated_event(ScopeEvent::Enter, count), depth) == Some((depth + count) as nat),
    decreases count,
{
    if count == 0 {
        assert(repeated_event(ScopeEvent::Enter, 0) =~= Seq::<ScopeEvent>::empty());
    } else {
        assert(repeated_event(ScopeEvent::Enter, count).drop_first() =~= repeated_event(
            ScopeEvent::Enter,
            (count - 1) as nat,
        ));
        lemma_scope_depth_after_enters((count - 1) as nat, depth + 1);
    }
}

/// Exit events succeed as long as enough scopes are open, and lower the
/// depth by their number.
proof fn lemma_scope_depth_after_exits(count: nat, depth: nat)
    requires
        count <= depth,
    ensures
        scope_depth_after(repeated_event(ScopeEvent::Exit, count), depth) == Some((depth - count) as nat),
    decreases count,
{
    if count == 0 {
        assert(repeated_event(ScopeEvent::Exit, 0) =~= Seq::<ScopeEvent>::empty());
    } else {
        assert(repeated_event(ScopeEvent::Exit, count).drop_first() =~= repeated_event(
            ScopeEvent::Exit,
            (count - 1) as nat,
        ));
        lemma_scope_depth_after_exits((count - 1) as nat, (depth - 1) as nat);
    }
}

/// Law: any number of enter events followed by as many exit events closes
/// every scope again — the tracker ends at depth zero, so `is_inside_loop`
/// reports false afterwards.
pub proof fn lemma_balanced_events_close_all_scopes(count: nat)
    ensures
        scope_depth_after(
            repeated_event(ScopeEvent::Enter, count) + repeated_event(ScopeEvent::Exit, count),
            0,
        ) == Some(0nat),
{
    lemma_scope_depth_after_enters(count, 0);
    lemma_scope_depth_after_exits(count, count);
    lemma_scope_depth_after_append(
        repeated_event(ScopeEvent::Enter, count),
        repeated_event(ScopeEvent::Exit, count),
        0,
    );
}

/// Law: an exit event with no scope open is an imbalance, whatever events
/// follow it.
pub proof fn lemma_unmatched_exit_is_imbalanced(rest: Seq<ScopeEvent>)
    ensures
        scope_depth_after(seq![ScopeEvent::Exit] + rest, 0) is None,
{
    assert((seq![ScopeEvent::Exit] + rest)[0] == ScopeEvent::Exit);
}

} // verus!
