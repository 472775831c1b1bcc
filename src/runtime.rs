use vstd::prelude::*;

use crate::event::AppEvent;
use crate::record::BookmarkFile;
use crate::stack::{dispatched, AppStack, StackModel};
use crate::state::AppState;
use crate::view::{AppView, ErrorView};

verus! {

/// What the background loader reports.
#[derive(Debug)]
pub enum DataEvent {
    NewFile(BookmarkFile),
    /// The walk is over; sent once, after the last entry.
    Loaded,
    /// The walk itself failed; carries the error's message.
    LoadError(String),
}

/// The first of the loop's sources to be ready.
#[derive(Debug)]
pub enum Incoming {
    /// The loader's channel; `None` once it is closed.
    Data(Option<DataEvent>),
    /// The terminal's channel; `None` once it is closed.
    Terminal(Option<AppEvent>),
    /// The animation clock.
    Tick,
}

/// What a loader event does: an entry is appended, the end of loading is
/// recorded, a failure is shown in a blocking error overlay. The view stack
/// takes no part but for the overlay.
pub open spec fn data_applied(s0: StackModel, s1: StackModel, st0: AppState, st1: AppState, evt: DataEvent) -> bool {
    match evt {
        DataEvent::NewFile(f) => {
            &&& st1.items@ == st0.items@.push(f)
            &&& st1.items_loaded == st0.items_loaded
            &&& st1.loader == st0.loader
            &&& st1.pending_open == st0.pending_open
            &&& s1 == s0
        },
        DataEvent::Loaded => {
            &&& st1.items@ == st0.items@
            &&& st1.items_loaded
            &&& st1.loader == st0.loader
            &&& st1.pending_open == st0.pending_open
            &&& s1 == s0
        },
        DataEvent::LoadError(msg) => {
            &&& st1 == st0
            &&& s1 == StackModel {
                views: s0.views.push(AppView::Error(ErrorView(msg))),
                blocked: true,
                ..s0
            }
        },
    }
}

/// Applies one loader event to the collection, or to the stack for a failure.
pub fn apply_data_event(stack: &mut AppStack, state: &mut AppState, evt: DataEvent)
    requires
        old(stack).wf(),
    ensures
        final(stack).wf(),
        data_applied(old(stack)@, final(stack)@, *old(state), *final(state), evt),
{
    match evt {
        DataEvent::NewFile(file) => state.push_entry(file),
        DataEvent::Loaded => state.mark_loaded(),
        DataEvent::LoadError(msg) => stack.push_block(AppView::Error(ErrorView(msg))),
    }
}

/// One turn of the event loop: a loader event changes the collection, a
/// terminal event or a tick goes through the view stack, a closed channel
/// changes nothing.
pub fn step(stack: &mut AppStack, state: &mut AppState, incoming: Incoming)
    requires
        old(stack).wf(),
    ensures
        final(stack).wf(),
        match incoming {
            Incoming::Data(Some(evt)) => data_applied(
                old(stack)@,
                final(stack)@,
                *old(state),
                *final(state),
                evt,
            ),
            Incoming::Terminal(Some(e)) => dispatched(
                old(stack)@,
                final(stack)@,
                *old(state),
                *final(state),
                e,
            ),
            Incoming::Tick => dispatched(
                old(stack)@,
                final(stack)@,
                *old(state),
                *final(state),
                AppEvent::Tick,
            ),
            _ => final(stack)@ == old(stack)@ && *final(state) == *old(state),
        },
{
    match incoming {
        Incoming::Data(Some(evt)) => apply_data_event(stack, state, evt),
        Incoming::Terminal(Some(e)) => stack.handle_app_event(state, e),
        Incoming::Tick => stack.handle_app_event(state, AppEvent::Tick),
        _ => {},
    }
}

} // verus!
