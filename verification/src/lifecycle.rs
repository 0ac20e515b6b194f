//! What the event loop does with a window event once the context stands.

use crate::context::{teardown_order, torn_down, ApplicationContext, ContextParts, TeardownStep};
use vstd::prelude::*;

verus! {

/// A window event, as far as the loop tells events apart.
#[derive(Clone, Copy, Debug, PartialEq, Eq, Structural)]
pub enum LoopEvent {
    /// The window was asked to close.
    CloseRequested,
    /// Every pending event was handled.
    MainEventsCleared,
    /// The window asks to be drawn again.
    RedrawRequested,
    /// Any other event.
    Other,
}

/// What the loop does in answer to an event.
#[derive(Debug, PartialEq, Eq)]
pub enum Reaction {
    /// Make these calls in order, then leave the loop.
    Shutdown(Vec<TeardownStep>),
    /// Ask the window to redraw, and go on polling.
    RequestRedraw,
    /// Go on polling.
    Idle,
}

/// The mathematical content of a `Reaction`.
pub ghost enum ReactionView {
    Shutdown(Seq<TeardownStep>),
    RequestRedraw,
    Idle,
}

impl View for Reaction {
    type V = ReactionView;

    open spec fn view(&self) -> ReactionView {
        match self {
            Reaction::Shutdown(plan) => ReactionView::Shutdown(plan@),
            Reaction::RequestRedraw => ReactionView::RequestRedraw,
            Reaction::Idle => ReactionView::Idle,
        }
    }
}

/// The reaction to an event: a request to close tears the context down, unless
/// that was done before, and ends the loop; the end of a round of events asks
/// for a redraw; nothing else has an effect, drawing included.
pub open spec fn reaction(parts: ContextParts, event: LoopEvent) -> ReactionView {
    match event {
        LoopEvent::CloseRequested => ReactionView::Shutdown(
            if parts.live {
                teardown_order(parts)
            } else {
                Seq::empty()
            },
        ),
        LoopEvent::MainEventsCleared => ReactionView::RequestRedraw,
        _ => ReactionView::Idle,
    }
}

/// What the context holds after an event.
pub open spec fn after_event(parts: ContextParts, event: LoopEvent) -> ContextParts {
    if event == LoopEvent::CloseRequested && parts.live {
        torn_down(parts)
    } else {
        parts
    }
}

/// Handles one window event.
pub fn dispatch(context: &mut ApplicationContext, event: LoopEvent) -> (answer: Reaction)
    ensures
        answer@ == reaction(old(context)@, event),
        final(context)@ == after_event(old(context)@, event),
{
    match event {
        LoopEvent::CloseRequested => match context.try_destroy() {
            Some(plan) => Reaction::Shutdown(plan),
            None => Reaction::Shutdown(Vec::new()),
        },
        LoopEvent::MainEventsCleared => Reaction::RequestRedraw,
        _ => Reaction::Idle,
    }
}

/// The loop is left on a request to close and on nothing else, and only such a
/// request changes the context.
pub proof fn lemma_close_is_the_only_exit(parts: ContextParts, event: LoopEvent)
    ensures
        reaction(parts, event) is Shutdown <==> event == LoopEvent::CloseRequested,
        event != LoopEvent::CloseRequested ==> after_event(parts, event) == parts,
        !after_event(parts, LoopEvent::CloseRequested).live,
{
}

/// Teardown happens at most once: whatever the first event, if it brought a
/// call of teardown, no later event brings one.
pub proof fn lemma_teardown_at_most_once(parts: ContextParts, first: LoopEvent, later: LoopEvent)
    requires
        reaction(parts, first) matches ReactionView::Shutdown(plan) && plan.len() > 0,
    ensures
        reaction(after_event(parts, first), later) matches ReactionView::Shutdown(plan)
            ==> plan.len() == 0,
        after_event(after_event(parts, first), later) == after_event(parts, first),
{
}

} // verus!
