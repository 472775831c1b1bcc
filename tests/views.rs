use bookmarks::event::{AppEvent, KeyCode, KeyEventKind, KeyModifiers, TerminalEvent};
use bookmarks::main_view::{Focus, MainView, StatusKind};
use bookmarks::record::{BookmarkFile, BookmarkRecord};
use bookmarks::runtime::{apply_data_event, step, DataEvent, Incoming};
use bookmarks::selected_block::SelectedBlock;
use bookmarks::stack::AppStack;
use bookmarks::state::{AppState, Loader};
use bookmarks::view::{AppView, ErrorView, EventState};
use bookmarks::walk::{walk_action, EntryKind, WalkAction};

fn entry(url: &str) -> BookmarkFile {
    BookmarkFile {
        content: BookmarkRecord {
            path: vec![],
            title: None,
            url: url.to_string(),
            tags: None,
            description: None,
            embeddings: None,
        },
        path: format!("/data/{url}.toml"),
        relative_path: format!("{url}.toml"),
    }
}

fn key(c: char) -> AppEvent {
    AppEvent::Key(KeyCode::Char(c), KeyModifiers::none())
}

fn plain(code: KeyCode) -> AppEvent {
    AppEvent::Key(code, KeyModifiers::none())
}

fn ctrl_q() -> AppEvent {
    AppEvent::Key(KeyCode::Char('q'), KeyModifiers::control())
}

fn main_of(stack: &AppStack) -> &MainView {
    match &stack.views()[0] {
        AppView::Main(m) => m,
        _ => panic!("base view is not the main view"),
    }
}

fn state_with(urls: &[&str]) -> AppState {
    let mut s = AppState::new();
    for u in urls {
        s.push_entry(entry(u));
    }
    s
}

#[test]
fn quit_key_from_depth_one_quits() {
    let mut stack = AppStack::with_main_view();
    let mut state = AppState::new();
    stack.handle_app_event(&mut state, ctrl_q());
    assert!(stack.should_quit);
}

#[test]
fn pop_key_from_depth_one_quits() {
    let mut stack = AppStack::with_main_view();
    let mut state = AppState::new();
    stack.handle_app_event(&mut state, key('q'));
    assert!(stack.should_quit);
    assert_eq!(stack.depth(), 1);
}

#[test]
fn pop_key_from_depth_two_pops() {
    let mut stack = AppStack::with_main_view();
    let mut state = AppState::new();
    stack.push(AppView::Error(ErrorView("oops".to_string())));
    assert_eq!(stack.depth(), 2);
    stack.handle_app_event(&mut state, key('q'));
    assert_eq!(stack.depth(), 1);
    assert!(!stack.should_quit);
}

#[test]
fn quit_key_from_depth_two_quits() {
    let mut stack = AppStack::with_main_view();
    let mut state = AppState::new();
    stack.push(AppView::Error(ErrorView("oops".to_string())));
    stack.handle_app_event(&mut state, ctrl_q());
    assert!(stack.should_quit);
}

#[test]
fn blocking_overlay_swallows_events() {
    let mut stack = AppStack::with_main_view();
    let mut state = state_with(&["a", "b"]);
    stack.push_block(AppView::Error(ErrorView("fatal".to_string())));
    assert!(stack.is_blocked());
    for e in [key('j'), key('/'), plain(KeyCode::Enter), AppEvent::Tick, AppEvent::Render, key('o')] {
        stack.handle_app_event(&mut state, e);
        assert!(stack.is_blocked());
        assert_eq!(stack.depth(), 2);
        assert!(!stack.should_quit);
    }
    assert_eq!(main_of(&stack).selected(), None);
    assert_eq!(state.loader.glyph(), 0xEE06);
    assert!(state.pending_open.is_none());
}

#[test]
fn dismiss_key_unblocks() {
    let mut stack = AppStack::with_main_view();
    let mut state = AppState::new();
    stack.push_block(AppView::Error(ErrorView("fatal".to_string())));
    stack.handle_app_event(&mut state, plain(KeyCode::Esc));
    assert!(!stack.is_blocked());
    assert_eq!(stack.depth(), 1);
    assert!(!stack.should_quit);
}

#[test]
fn quit_while_blocked() {
    let mut stack = AppStack::with_main_view();
    let mut state = AppState::new();
    stack.push_block(AppView::Error(ErrorView("fatal".to_string())));
    stack.handle_app_event(&mut state, key('q'));
    assert!(stack.should_quit);
    assert!(stack.is_blocked());
    assert_eq!(stack.depth(), 2);
}

#[test]
fn upper_q_and_control_q_quit_while_blocked() {
    for e in [key('Q'), ctrl_q()] {
        let mut stack = AppStack::with_main_view();
        let mut state = AppState::new();
        stack.push_block(AppView::Error(ErrorView("fatal".to_string())));
        stack.handle_app_event(&mut state, e);
        assert!(stack.should_quit);
        assert!(stack.is_blocked());
        assert_eq!(stack.depth(), 2);
    }
}

#[test]
fn error_view_never_handles() {
    let mut v = ErrorView("x".to_string());
    let mut state = AppState::new();
    assert!(matches!(v.handle_app_event(&mut state, &key('j')), EventState::NotHandled));
}

#[test]
fn loader_events_fill_collection() {
    let mut stack = AppStack::with_main_view();
    let mut state = AppState::new();
    step(&mut stack, &mut state, Incoming::Data(Some(DataEvent::NewFile(entry("a")))));
    step(&mut stack, &mut state, Incoming::Data(Some(DataEvent::NewFile(entry("b")))));
    step(&mut stack, &mut state, Incoming::Data(Some(DataEvent::Loaded)));
    let urls: Vec<&str> = state.items.iter().map(|f| f.content.url.as_str()).collect();
    assert_eq!(urls, vec!["a", "b"]);
    assert!(state.items_loaded);
    assert_eq!(stack.depth(), 1);
    assert!(!stack.is_blocked());
}

#[test]
fn load_error_pushes_one_blocking_overlay() {
    let mut stack = AppStack::with_main_view();
    let mut state = AppState::new();
    apply_data_event(&mut stack, &mut state, DataEvent::NewFile(entry("a")));
    apply_data_event(&mut stack, &mut state, DataEvent::LoadError("no such dir".to_string()));
    assert_eq!(stack.depth(), 2);
    assert!(stack.is_blocked());
    match &stack.views()[1] {
        AppView::Error(ErrorView(msg)) => assert_eq!(msg, "no such dir"),
        _ => panic!("top view is not an error view"),
    }
    assert_eq!(state.items.len(), 1);
    assert!(!state.items_loaded);
}

#[test]
fn closed_channels_change_nothing() {
    let mut stack = AppStack::with_main_view();
    let mut state = state_with(&["a"]);
    step(&mut stack, &mut state, Incoming::Data(None));
    step(&mut stack, &mut state, Incoming::Terminal(None));
    assert_eq!(state.items.len(), 1);
    assert_eq!(main_of(&stack).selected(), None);
    assert!(!stack.should_quit);
}

#[test]
fn appending_keeps_indices() {
    let mut state = state_with(&["a", "b"]);
    state.push_entry(entry("c"));
    assert_eq!(state.items[0].content.url, "a");
    assert_eq!(state.items[1].content.url, "b");
    assert_eq!(state.items[2].content.url, "c");
}

#[test]
fn typing_searches_live() {
    let mut stack = AppStack::with_main_view();
    let mut state = state_with(&["zzz", "abc-example"]);
    for e in [key('/'), key('a'), key('b')] {
        step(&mut stack, &mut state, Incoming::Terminal(Some(e)));
    }
    let m = main_of(&stack);
    assert_eq!(m.focus(), Focus::Search);
    let results = m.search_results().unwrap().clone();
    assert_eq!(results.len(), 1);
    assert_eq!(results[0].0, 1);
    assert!(results[0].1 >= 0);
    assert_eq!(m.selected(), Some(1));
    assert_eq!(m.rank_of(1), Some(0));
    assert_eq!(m.rank_of(0), None);
    step(&mut stack, &mut state, Incoming::Terminal(Some(key('z'))));
    let m = main_of(&stack);
    assert!(m.filter_active());
    assert!(m.search_results().unwrap().is_empty());
}

#[test]
fn leaving_search_restores_list() {
    let mut stack = AppStack::with_main_view();
    let mut state = state_with(&["abc"]);
    for e in [key('/'), key('a'), plain(KeyCode::Backspace), plain(KeyCode::Backspace)] {
        stack.handle_app_event(&mut state, e);
    }
    let m = main_of(&stack);
    assert_eq!(m.focus(), Focus::List);
    assert!(!m.filter_active());
    stack.handle_app_event(&mut state, key('/'));
    stack.handle_app_event(&mut state, plain(KeyCode::Esc));
    assert!(!main_of(&stack).filter_active());
}

#[test]
fn empty_query_is_an_active_filter() {
    let mut stack = AppStack::with_main_view();
    let mut state = state_with(&["abc"]);
    stack.handle_app_event(&mut state, key('/'));
    let m = main_of(&stack);
    assert!(m.filter_active());
    assert!(m.search_results().unwrap().is_empty());
}

#[test]
fn query_editing_moves_caret() {
    let mut stack = AppStack::with_main_view();
    let mut state = state_with(&["abc"]);
    for e in [key('/'), key('a'), key('c'), plain(KeyCode::Left), key('b')] {
        stack.handle_app_event(&mut state, e);
    }
    let m = main_of(&stack);
    assert_eq!(m.query().unwrap().iter().collect::<String>(), "abc");
    assert_eq!(m.query_cursor(), Some(2));
    stack.handle_app_event(&mut state, plain(KeyCode::Home));
    assert_eq!(main_of(&stack).query_cursor(), Some(0));
    stack.handle_app_event(&mut state, plain(KeyCode::End));
    assert_eq!(main_of(&stack).query_cursor(), Some(3));
}

#[test]
fn next_and_previous_match_wrap() {
    let mut stack = AppStack::with_main_view();
    let mut state = state_with(&["abc", "xyz", "abd"]);
    for e in [key('/'), key('a'), key('b'), plain(KeyCode::Enter)] {
        stack.handle_app_event(&mut state, e);
    }
    let m = main_of(&stack);
    assert_eq!(m.focus(), Focus::List);
    let results = m.search_results().unwrap().clone();
    assert_eq!(results.len(), 2);
    assert_eq!(m.selected(), Some(results[0].0));
    assert_eq!(m.search_hint(), Some((1, 2)));
    stack.handle_app_event(&mut state, key('n'));
    assert_eq!(main_of(&stack).selected(), Some(results[1].0));
    stack.handle_app_event(&mut state, key('n'));
    assert_eq!(main_of(&stack).selected(), Some(results[0].0));
    stack.handle_app_event(&mut state, key('N'));
    assert_eq!(main_of(&stack).selected(), Some(results[1].0));
    assert_eq!(main_of(&stack).search_hint(), Some((2, 2)));
}

#[test]
fn list_cursor_stays_on_list() {
    let mut stack = AppStack::with_main_view();
    let mut state = state_with(&["a", "b", "c"]);
    stack.handle_app_event(&mut state, key('k'));
    assert_eq!(main_of(&stack).selected(), Some(0));
    stack.handle_app_event(&mut state, key('j'));
    stack.handle_app_event(&mut state, key('j'));
    stack.handle_app_event(&mut state, key('j'));
    assert_eq!(main_of(&stack).selected(), Some(2));
    stack.handle_app_event(&mut state, key('g'));
    assert_eq!(main_of(&stack).selected(), Some(0));
    stack.handle_app_event(&mut state, key('G'));
    assert_eq!(main_of(&stack).selected(), Some(2));
}

#[test]
fn empty_list_has_no_selection() {
    let mut stack = AppStack::with_main_view();
    let mut state = AppState::new();
    stack.handle_app_event(&mut state, key('j'));
    assert_eq!(main_of(&stack).selected(), None);
    stack.handle_app_event(&mut state, key('G'));
    assert_eq!(main_of(&stack).selected(), None);
}

#[test]
fn detail_pane_scrolls_within_text() {
    let mut stack = AppStack::with_main_view();
    let mut state = state_with(&["a", "b"]);
    stack.handle_app_event(&mut state, key('j'));
    stack.handle_app_event(&mut state, key(' '));
    let m = main_of(&stack);
    assert_eq!(m.focus(), Focus::Content);
    assert_eq!(m.selected_content().unwrap().item_index, 1);
    assert_eq!(m.status_kind(), StatusKind::Content);
    stack.handle_app_event(&mut state, key('j'));
    assert_eq!(main_of(&stack).selected_content().unwrap().scroll_value, 0);
    stack.handle_app_event(&mut state, plain(KeyCode::Esc));
    let m = main_of(&stack);
    assert_eq!(m.focus(), Focus::List);
    assert!(m.selected_content().is_none());
}

#[test]
fn scroll_bounded_by_metrics() {
    let mut v = MainView::new();
    let mut state = state_with(&["a"]);
    v.handle_app_event(&mut state, &plain(KeyCode::Enter));
    v.set_content_metrics(5, 3);
    v.handle_app_event(&mut state, &key('l'));
    for _ in 0..4 {
        v.handle_app_event(&mut state, &key('j'));
    }
    assert_eq!(v.selected_content().unwrap().scroll_value, 2);
    v.handle_app_event(&mut state, &key('k'));
    assert_eq!(v.selected_content().unwrap().scroll_value, 1);
}

#[test]
fn open_key_requests_selected_url() {
    let mut stack = AppStack::with_main_view();
    let mut state = state_with(&["a", "b"]);
    stack.handle_app_event(&mut state, key('j'));
    stack.handle_app_event(&mut state, key('o'));
    assert_eq!(state.take_open_request(), Some("b".to_string()));
    assert_eq!(state.take_open_request(), None);
}

#[test]
fn tick_advances_spinner_while_loading() {
    let mut stack = AppStack::with_main_view();
    let mut state = AppState::new();
    for _ in 0..7 {
        step(&mut stack, &mut state, Incoming::Tick);
    }
    assert_eq!(state.loader.glyph(), 0xEE06 + 1);
    state.mark_loaded();
    step(&mut stack, &mut state, Incoming::Tick);
    assert_eq!(state.loader.glyph(), 0xEE06 + 1);
}

#[test]
fn loader_wraps_around() {
    let mut l = Loader::new();
    for _ in 0..5 {
        l.next();
    }
    assert_eq!(l.glyph(), 0xEE0B);
    l.next();
    assert_eq!(l.glyph(), 0xEE06);
}

#[test]
fn terminal_events_are_normalized() {
    let m = KeyModifiers::none();
    assert_eq!(
        AppEvent::from_terminal(TerminalEvent::Key(KeyCode::Enter, m, KeyEventKind::Press)),
        Some(AppEvent::Key(KeyCode::Enter, m))
    );
    assert_eq!(
        AppEvent::from_terminal(TerminalEvent::Key(KeyCode::Enter, m, KeyEventKind::Repeat)),
        Some(AppEvent::Key(KeyCode::Enter, m))
    );
    assert_eq!(AppEvent::from_terminal(TerminalEvent::Key(KeyCode::Enter, m, KeyEventKind::Release)), None);
    assert_eq!(AppEvent::from_terminal(TerminalEvent::Resize(10, 20)), Some(AppEvent::Render));
    assert_eq!(AppEvent::from_terminal(TerminalEvent::FocusGained), Some(AppEvent::Render));
    assert_eq!(AppEvent::from_terminal(TerminalEvent::FocusLost), None);
    assert_eq!(AppEvent::from_terminal(TerminalEvent::Mouse), None);
}

#[test]
fn walk_decides_per_entry() {
    assert_eq!(walk_action(EntryKind::Directory, None), WalkAction::Descend);
    assert_eq!(walk_action(EntryKind::File, Some("toml")), WalkAction::Yield);
    assert_eq!(walk_action(EntryKind::File, Some("tomlx")), WalkAction::Skip);
    assert_eq!(walk_action(EntryKind::File, None), WalkAction::Skip);
    assert_eq!(walk_action(EntryKind::Other, Some("toml")), WalkAction::Skip);
}

#[test]
fn selected_block_moves() {
    assert_eq!(SelectedBlock::List.next(), SelectedBlock::Content);
    assert_eq!(SelectedBlock::Content.next(), SelectedBlock::Content);
    assert_eq!(SelectedBlock::Content.prev(), SelectedBlock::List);
    assert_eq!(SelectedBlock::List.prev(), SelectedBlock::List);
    assert_eq!(SelectedBlock::from_repr(2), None);
}

#[test]
fn status_line_follows_focus() {
    let mut v = MainView::new();
    let mut state = state_with(&["abc"]);
    assert_eq!(v.status_kind(), StatusKind::List);
    assert_eq!(
        v.status_help(),
        Some("Quit: q | Next: j | Prev: k | Open: o | Select: return | Focus Select: space | Search: /")
    );
    assert_eq!(v.search_hint(), None);
    v.handle_app_event(&mut state, &plain(KeyCode::Enter));
    assert_eq!(v.status_kind(), StatusKind::ListWithContent);
    assert!(v.status_help().unwrap().contains("Focus Content: l"));
    v.handle_app_event(&mut state, &key('/'));
    assert_eq!(v.status_kind(), StatusKind::SearchInput);
    assert_eq!(v.status_help(), None);
    assert_eq!(v.search_hint(), None);
    assert_eq!(v.query_cursor(), Some(0));
    v.handle_app_event(&mut state, &plain(KeyCode::Esc));
    assert_eq!(v.query_cursor(), None);
}
