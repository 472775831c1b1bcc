use vstd::prelude::*;

use crate::event::AppEvent;
use crate::main_view::{main_post, MainView};
use crate::state::AppState;

verus! {

/// A modal overlay showing an error message.
#[derive(Debug)]
pub struct ErrorView(pub String);

impl ErrorView {
    /// The overlay takes no keys itself: closing and quitting are the stack's.
    pub fn handle_app_event(&mut self, state: &mut AppState, _event: &AppEvent) -> (r: EventState)
        ensures
            r is NotHandled,
            *final(self) == *old(self),
            *final(state) == *old(state),
    {
        EventState::NotHandled
    }
}

/// The kinds of views the stack holds.
#[derive(Debug)]
pub enum AppView {
    Main(MainView),
    Error(ErrorView),
}

impl AppView {
    pub open spec fn wf(&self) -> bool {
        match self {
            AppView::Main(m) => m.wf(),
            AppView::Error(_) => true,
        }
    }

    /// Routes an event to the view.
    pub fn handle_app_event(&mut self, state: &mut AppState, event: &AppEvent) -> (r: EventState)
        requires
            old(self).wf(),
        ensures
            final(self).wf(),
            view_stepped(*old(self), *final(self), *old(state), *final(state), *event, r),
    {
        match self {
            AppView::Main(m) => m.handle_app_event(state, event),
            AppView::Error(v) => v.handle_app_event(state, event),
        }
    }
}

/// What one event does to a view and the shared state, with the view's answer.
pub open spec fn view_stepped(
    v0: AppView,
    v1: AppView,
    st0: AppState,
    st1: AppState,
    e: AppEvent,
    r: EventState,
) -> bool {
    match v0 {
        AppView::Main(m0) => match v1 {
            AppView::Main(m1) => main_post(m0, m1, st0, st1, e, r),
            AppView::Error(_) => false,
        },
        AppView::Error(_) => v1 == v0 && st1 == st0 && r is NotHandled,
    }
}

/// A view that an answer puts on the stack is well formed.
pub open spec fn outcome_wf(r: EventState) -> bool {
    match r {
        EventState::PushStack(v) => v.wf(),
        EventState::PushBlockStack(v) => v.wf(),
        _ => true,
    }
}

/// What a view did with an event.
#[derive(Debug)]
pub enum EventState {
    Handled,
    /// Put a view on top of the stack.
    PushStack(AppView),
    /// Put a view on top of the stack and block input until it is dismissed.
    PushBlockStack(AppView),
    NotHandled,
}

} // verus!
