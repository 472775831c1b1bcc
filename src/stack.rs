use vstd::prelude::*;

use crate::event::{
    dismiss_key, forced_quit_key, is_dismiss_key, is_forced_quit_key, is_key, is_pop_key,
    is_quit_combo, pop_key, quit_combo, AppEvent, KeyCode,
};
use crate::main_view::{with_metrics, Focus, MainModel, MainView};
use crate::state::AppState;
use crate::view::{outcome_wf, view_stepped, AppView, EventState};

verus! {

/// The stack of open views. Only the top one receives events; while blocked,
/// events reach no view at all.
#[derive(Debug)]
pub struct AppStack {
    pub should_quit: bool,
    is_blocked: bool,
    stack: Vec<AppView>,
}

/// What a view stack stands for.
pub struct StackModel {
    /// Bottom first.
    pub views: Seq<AppView>,
    pub should_quit: bool,
    pub blocked: bool,
}

impl View for AppStack {
    type V = StackModel;

    closed spec fn view(&self) -> StackModel {
        StackModel { views: self.stack@, should_quit: self.should_quit, blocked: self.is_blocked }
    }
}

/// The stack after the top view answered `r` to `e`.
pub open spec fn resolve(s: StackModel, r: EventState, e: AppEvent) -> StackModel {
    match r {
        EventState::Handled => s,
        EventState::PushStack(v) => StackModel { views: s.views.push(v), ..s },
        EventState::PushBlockStack(v) => StackModel { views: s.views.push(v), blocked: true, ..s },
        EventState::NotHandled => if is_quit_combo(e) {
            StackModel { should_quit: true, ..s }
        } else if is_pop_key(e) {
            if s.views.len() > 1 {
                StackModel { views: s.views.drop_last(), ..s }
            } else {
                StackModel { should_quit: true, ..s }
            }
        } else {
            s
        },
    }
}

/// A blocked stack: q or Q quits and leaves the views as they are, the
/// dismiss key closes the overlay and unblocks, everything else is swallowed.
pub open spec fn blocked_step(s: StackModel, e: AppEvent) -> StackModel {
    if is_forced_quit_key(e) {
        StackModel { should_quit: true, ..s }
    } else if is_dismiss_key(e) {
        StackModel {
            views: if s.views.len() > 1 {
                s.views.drop_last()
            } else {
                s.views
            },
            blocked: false,
            ..s
        }
    } else {
        s
    }
}

/// What dispatching `e` does to the stack and the shared state.
pub open spec fn dispatched(s0: StackModel, s1: StackModel, st0: AppState, st1: AppState, e: AppEvent) -> bool {
    if s0.blocked {
        s1 == blocked_step(s0, e) && st1 == st0
    } else if s0.views.len() == 0 {
        s1 == s0 && st1 == st0
    } else {
        exists|top: AppView, r: EventState|
            view_stepped(s0.views.last(), top, st0, st1, e, r) && s1 == resolve(
                StackModel { views: s0.views.drop_last().push(top), ..s0 },
                r,
                e,
            )
    }
}

impl AppStack {
    pub closed spec fn wf(&self) -> bool {
        forall|i: int| 0 <= i < self.stack@.len() ==> (#[trigger] self.stack@[i]).wf()
    }

    pub fn new() -> (r: AppStack)
        ensures
            r.wf(),
            r@.views.len() == 0,
            !r@.should_quit,
            !r@.blocked,
    {
        AppStack { should_quit: false, is_blocked: false, stack: Vec::new() }
    }

    pub fn is_blocked(&self) -> (r: bool)
        ensures
            r == self@.blocked,
    {
        self.is_blocked
    }

    pub fn depth(&self) -> (r: usize)
        ensures
            r == self@.views.len(),
    {
        self.stack.len()
    }

    /// The views, bottom first.
    pub fn views(&self) -> (r: &Vec<AppView>)
        ensures
            r@ == self@.views,
    {
        &self.stack
    }

    pub fn push(&mut self, value: AppView)
        requires
            old(self).wf(),
            value.wf(),
        ensures
            final(self).wf(),
            final(self)@ == (StackModel { views: old(self)@.views.push(value), ..old(self)@ }),
    {
        self.stack.push(value);
        assert forall|i: int| 0 <= i < self.stack@.len() implies (#[trigger] self.stack@[i]).wf() by {
            if i < old(self).stack@.len() {
                assert(old(self).stack@[i].wf());
            }
        }
    }

    pub fn push_block(&mut self, value: AppView)
        requires
            old(self).wf(),
            value.wf(),
        ensures
            final(self).wf(),
            final(self)@ == (StackModel {
                views: old(self)@.views.push(value),
                blocked: true,
                ..old(self)@
            }),
    {
        self.push(value);
        self.is_blocked = true;
    }

    fn apply(&mut self, r: EventState, e: &AppEvent)
        requires
            old(self).wf(),
            outcome_wf(r),
        ensures
            final(self).wf(),
            final(self)@ == resolve(old(self)@, r, *e),
    {
        match r {
            EventState::Handled => {},
            EventState::PushStack(v) => self.push(v),
            EventState::PushBlockStack(v) => self.push_block(v),
            EventState::NotHandled => {
                if quit_combo(e) {
                    self.should_quit = true;
                } else if pop_key(e) {
                    if self.stack.len() > 1 {
                        self.stack.pop();
                        assert forall|i: int| 0 <= i < self.stack@.len() implies (#[trigger] self.stack@[i]).wf() by {
                            assert(old(self).stack@[i].wf());
                        }
                    } else {
                        self.should_quit = true;
                    }
                }
            },
        }
    }

    /// Hands an event to the top view and applies its answer; while blocked,
    /// only q or Q (quit) and the dismiss key (close the overlay) act.
    pub fn handle_app_event(&mut self, state: &mut AppState, event: AppEvent)
        requires
            old(self).wf(),
        ensures
            final(self).wf(),
            dispatched(old(self)@, final(self)@, *old(state), *final(state), event),
    {
        if self.is_blocked {
            if forced_quit_key(&event) {
                self.should_quit = true;
            } else if dismiss_key(&event) {
                self.is_blocked = false;
                if self.stack.len() > 1 {
                    self.stack.pop();
                    assert forall|i: int| 0 <= i < self.stack@.len() implies (#[trigger] self.stack@[i]).wf() by {
                        assert(old(self).stack@[i].wf());
                    }
                }
            }
            return ;
        }
        if self.stack.len() == 0 {
            return ;
        }
        let ghost s0 = self@;
        let ghost st0 = *state;
        let mut top = self.stack.pop().unwrap();
        let ghost top0 = top;
        assert(top0 == s0.views.last());
        assert(top.wf());
        let r = top.handle_app_event(state, &event);
        let ghost top1 = top;
        let ghost r1 = r;
        self.stack.push(top);
        assert forall|i: int| 0 <= i < self.stack@.len() implies (#[trigger] self.stack@[i]).wf() by {
            if i < s0.views.len() - 1 {
                assert(old(self).stack@[i].wf());
            }
        }
        assert(outcome_wf(r)) by {
            match top0 {
                AppView::Main(_) => {},
                AppView::Error(_) => {},
            }
        }
        self.apply(r, &event);
        assert(view_stepped(s0.views.last(), top1, st0, *state, event, r1));
    }
}

impl AppStack {
    /// A stack holding one fresh main view.
    pub fn with_main_view() -> (r: AppStack)
        ensures
            r.wf(),
            r@.views.len() == 1,
            r@.views[0] matches AppView::Main(m) && m@ == (MainModel {
                focus: Focus::List,
                selected: None,
                content: None,
                search: None,
            }),
            !r@.should_quit,
            !r@.blocked,
    {
        let mut s = AppStack::new();
        s.push(AppView::Main(MainView::new()));
        s
    }
}

impl AppStack {
    /// Records the detail pane's measures in the main view at `index`; other
    /// views are left as they are.
    pub fn set_content_metrics(&mut self, index: usize, content_height: usize, viewport_height: usize)
        requires
            old(self).wf(),
        ensures
            final(self).wf(),
            final(self)@.should_quit == old(self)@.should_quit,
            final(self)@.blocked == old(self)@.blocked,
            final(self)@.views.len() == old(self)@.views.len(),
            forall|j: int|
                0 <= j < old(self)@.views.len() && j != index ==> #[trigger] final(self)@.views[j]
                    == old(self)@.views[j],
            index < old(self)@.views.len() ==> match old(self)@.views[index as int] {
                AppView::Main(m0) => final(self)@.views[index as int] matches AppView::Main(m1)
                    && m1@ == with_metrics(m0@, content_height, viewport_height),
                AppView::Error(_) => final(self)@.views[index as int] == old(self)@.views[index as int],
            },
    {
        if index >= self.stack.len() {
            return ;
        }
        let mut v = self.stack.remove(index);
        assert(v.wf()) by {
            assert(old(self).stack@[index as int].wf());
        }
        match &mut v {
            AppView::Main(m) => m.set_content_metrics(content_height, viewport_height),
            AppView::Error(_) => {},
        }
        self.stack.insert(index, v);
        assert forall|j: int| 0 <= j < self.stack@.len() implies (#[trigger] self.stack@[j]).wf() by {
            if j != index {
                assert(old(self).stack@[j].wf());
            }
        }
    }
}

impl Default for AppStack {
    fn default() -> (r: AppStack)
        ensures
            r.wf(),
            r@.views.len() == 0,
            !r@.should_quit,
            !r@.blocked,
    {
        AppStack::new()
    }
}

/// The top view leaves q to the stack: an error overlay always does, the
/// main view does outside search mode.
pub open spec fn leaves_q_to_stack(v: AppView) -> bool {
    match v {
        AppView::Error(_) => true,
        AppView::Main(m) => m@.focus != Focus::Search,
    }
}

/// With a top view that leaves q to the stack: from a single view both
/// control-q and q quit; control-q quits from any depth; from two views or
/// more, q closes the top view alone and does not quit.
pub proof fn quit_and_pop_keys(s0: StackModel, s1: StackModel, st0: AppState, st1: AppState, e: AppEvent)
    requires
        dispatched(s0, s1, st0, st1, e),
        !s0.blocked,
        !s0.should_quit,
        s0.views.len() >= 1,
        leaves_q_to_stack(s0.views.last()),
        is_key(e, KeyCode::Char('q')),
    ensures
        s0.views.len() == 1 ==> s1.should_quit,
        is_quit_combo(e) ==> s1.should_quit,
        s0.views.len() >= 2 && is_pop_key(e) ==> s1.views == s0.views.drop_last() && !s1.should_quit
            && !s1.blocked,
{
    let (top, r) = choose|top: AppView, r: EventState|
        view_stepped(s0.views.last(), top, st0, st1, e, r) && s1 == resolve(
            StackModel { views: s0.views.drop_last().push(top), ..s0 },
            r,
            e,
        );
    assert(r is NotHandled);
    assert(s0.views.drop_last().push(top).drop_last() =~= s0.views.drop_last());
}

/// Once an answer pushes a blocking view the stack is blocked; while it is,
/// an event other than the dismiss key reaches no view, changes no state and
/// leaves the stack blocked with its views as they were; q or Q still quits;
/// the dismiss key unblocks it.
pub proof fn blocking_overlay(s0: StackModel, s1: StackModel, st0: AppState, st1: AppState, e: AppEvent)
    requires
        dispatched(s0, s1, st0, st1, e),
        s0.blocked,
    ensures
        forall|s: StackModel, v: AppView, x: AppEvent| #[trigger]
            resolve(s, EventState::PushBlockStack(v), x).blocked,
        !is_dismiss_key(e) ==> s1.blocked && s1.views == s0.views && st1 == st0,
        is_forced_quit_key(e) ==> s1.should_quit,
        !is_forced_quit_key(e) ==> s1.should_quit == s0.should_quit,
        is_dismiss_key(e) ==> !s1.blocked && st1 == st0,
{
}

/// The stack never runs empty: the base view is never popped, and q on a
/// single view asks to quit instead.
pub proof fn base_view_stays(s0: StackModel, s1: StackModel, st0: AppState, st1: AppState, e: AppEvent)
    requires
        dispatched(s0, s1, st0, st1, e),
        s0.views.len() >= 1,
    ensures
        s1.views.len() >= 1,
{
    if !s0.blocked {
        let (top, r) = choose|top: AppView, r: EventState|
            view_stepped(s0.views.last(), top, st0, st1, e, r) && s1 == resolve(
                StackModel { views: s0.views.drop_last().push(top), ..s0 },
                r,
                e,
            );
    }
}

} // verus!
