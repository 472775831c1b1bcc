use vstd::prelude::*;

use crate::event::{
    is_key, is_plain_key, is_super_key, key_char, key_is, plain_key_is, super_key_is, typed_char,
    AppEvent, KeyCode,
};
use crate::record::{push_char, BookmarkFile};
use crate::search::{
    entry_records, is_ranking, ranking_is_search_results, ranking_positions_distinct,
    record_matches, scores_decided, scores_of, search_entries, search_results,
};
use crate::state::{AppState, RANGE};
use crate::view::EventState;

verus! {

/// Which part of the main view takes the keys.
#[derive(Debug, Clone, Copy, PartialEq, Eq, Structural)]
pub enum Focus {
    List,
    Content,
    Search,
}

/// The entry shown in full in the detail pane, and how far it is scrolled.
#[derive(Debug, Clone, Copy, PartialEq, Eq, Structural)]
pub struct SelectedContent {
    pub item_index: usize,
    /// Lines of the rendered detail text.
    pub content_height: usize,
    /// Lines the pane shows at once.
    pub viewport_height: usize,
    pub scroll_value: usize,
}

/// Search mode: the query being edited and its ranked results.
#[derive(Debug)]
pub struct Search {
    value: Vec<char>,
    cursor_pos: usize,
    items: Vec<(usize, i64)>,
    /// For each entry position, its place among `items`.
    ranks: Vec<Option<usize>>,
    latest_focused: usize,
}

/// What a search state stands for.
pub struct SearchModel {
    pub query: Seq<char>,
    /// Caret position, in characters.
    pub cursor: nat,
    /// Ranked results: entry position and score.
    pub results: Seq<(usize, i64)>,
    /// The result that next / previous moved to last.
    pub focused: nat,
}

impl View for Search {
    type V = SearchModel;

    closed spec fn view(&self) -> SearchModel {
        SearchModel {
            query: self.value@,
            cursor: self.cursor_pos as nat,
            results: self.items@,
            focused: self.latest_focused as nat,
        }
    }
}

impl Search {
    pub closed spec fn wf(&self) -> bool {
        &&& self.cursor_pos <= self.value@.len()
        &&& if self.items@.len() == 0 {
            self.latest_focused == 0
        } else {
            self.latest_focused < self.items@.len()
        }
        &&& forall|k: int|
            0 <= k < self.items@.len() ==> (#[trigger] self.items@[k]).0 < self.ranks@.len()
                && self.ranks@[self.items@[k].0 as int] == Some(k as usize)
        &&& forall|i: int|
            0 <= i < self.ranks@.len() && (#[trigger] self.ranks@[i]) is Some ==> self.ranks@[i]->0
                < self.items@.len() && self.items@[self.ranks@[i]->0 as int].0 == i
    }

    fn new() -> (r: Search)
        ensures
            r.wf(),
            r@ == fresh_search(),
    {
        Search {
            value: Vec::new(),
            cursor_pos: 0,
            items: Vec::new(),
            ranks: Vec::new(),
            latest_focused: 0,
        }
    }

    /// Replaces the query and caret and searches `items` anew.
    fn requery(query: Vec<char>, cursor: usize, items: &Vec<BookmarkFile>) -> (r: Search)
        requires
            cursor <= query@.len(),
        ensures
            r.wf(),
            r@ == requeried(query@, cursor as nat, items@),
            scores_decided(query@, entry_records(items@)),
    {
        let mut text = String::new();
        let mut i: usize = 0;
        while i < query.len()
            invariant
                i <= query@.len(),
                text@ == query@.take(i as int),
            decreases query@.len() - i,
        {
            proof {
                assert(query@.take(i + 1) == query@.take(i as int).push(query@[i as int]));
            }
            push_char(&mut text, query[i]);
            i += 1;
        }
        assert(query@.take(query@.len() as int) =~= query@);
        let results = search_entries(text.as_str(), items);
        proof {
            ranking_is_search_results(results@, query@, items@);
            ranking_positions_distinct(
                results@,
                crate::search::scores_of(query@, crate::search::entry_records(items@)),
            );
        }
        let mut ranks: Vec<Option<usize>> = Vec::new();
        let mut n: usize = 0;
        while n < items.len()
            invariant
                n <= items@.len(),
                ranks@.len() == n,
                forall|j: int| 0 <= j < n ==> (#[trigger] ranks@[j]) is None,
            decreases items@.len() - n,
        {
            ranks.push(None);
            n += 1;
        }
        let mut k: usize = 0;
        while k < results.len()
            invariant
                k <= results@.len(),
                ranks@.len() == items@.len(),
                forall|m: int| 0 <= m < results@.len() ==> (#[trigger] results@[m]).0 < items@.len(),
                forall|a: int, b: int|
                    0 <= a < results@.len() && 0 <= b < results@.len() && a != b ==> (#[trigger] results@[a]).0
                        != (#[trigger] results@[b]).0,
                forall|m: int| 0 <= m < k ==> ranks@[(#[trigger] results@[m]).0 as int] == Some(m as usize),
                forall|j: int|
                    0 <= j < ranks@.len() && (#[trigger] ranks@[j]) is Some ==> ranks@[j]->0 < k
                        && results@[ranks@[j]->0 as int].0 == j,
            decreases results@.len() - k,
        {
            let idx = results[k].0;
            ranks.set(idx, Some(k));
            proof {
                assert forall|m: int| 0 <= m < k + 1 implies ranks@[(#[trigger] results@[m]).0 as int] == Some(m as usize) by {
                    if m < k {
                        assert(results@[m].0 != results@[k as int].0);
                    }
                }
            }
            k += 1;
        }
        Search { value: query, cursor_pos: cursor, items: results, ranks, latest_focused: 0 }
    }
}

/// What the main view stands for.
pub struct MainModel {
    pub focus: Focus,
    /// The list cursor: a position in the collection.
    pub selected: Option<usize>,
    pub content: Option<SelectedContent>,
    pub search: Option<SearchModel>,
}

/// The list of entries, a detail pane for one of them, and search mode.
#[derive(Debug)]
pub struct MainView {
    selected_block: Focus,
    selected: Option<usize>,
    selected_content: Option<SelectedContent>,
    search: Option<Search>,
}

impl View for MainView {
    type V = MainModel;

    closed spec fn view(&self) -> MainModel {
        MainModel {
            focus: self.selected_block,
            selected: self.selected,
            content: self.selected_content,
            search: match self.search {
                Some(s) => Some(s@),
                None => None,
            },
        }
    }
}

pub open spec fn fresh_search() -> SearchModel {
    SearchModel { query: Seq::empty(), cursor: 0, results: Seq::empty(), focused: 0 }
}

pub open spec fn fresh_content(i: usize) -> SelectedContent {
    SelectedContent { item_index: i, content_height: 0, viewport_height: 0, scroll_value: 0 }
}

/// Search state after the query became `query`, with the caret at `cursor`.
pub open spec fn requeried(query: Seq<char>, cursor: nat, items: Seq<BookmarkFile>) -> SearchModel {
    SearchModel { query, cursor, results: search_results(query, items), focused: 0 }
}

/// Cursor one down, kept on the list; none on an empty list.
pub open spec fn cursor_down(sel: Option<usize>, len: nat) -> Option<usize> {
    if len == 0 {
        None
    } else {
        match sel {
            None => Some(0usize),
            Some(i) => Some(if i + 1 < len { (i + 1) as usize } else { (len - 1) as usize }),
        }
    }
}

/// Cursor one up, kept on the list; from no selection, the last entry.
pub open spec fn cursor_up(sel: Option<usize>, len: nat) -> Option<usize> {
    if len == 0 {
        None
    } else {
        match sel {
            None => Some((len - 1) as usize),
            Some(i) => Some(
                if i == 0 {
                    0usize
                } else if i - 1 < len {
                    (i - 1) as usize
                } else {
                    (len - 1) as usize
                },
            ),
        }
    }
}

pub open spec fn cursor_first(len: nat) -> Option<usize> {
    if len == 0 {
        None
    } else {
        Some(0usize)
    }
}

pub open spec fn cursor_last(len: nat) -> Option<usize> {
    if len == 0 {
        None
    } else {
        Some((len - 1) as usize)
    }
}

/// Selection after a new result set: its best entry, if there is one.
pub open spec fn select_best(sel: Option<usize>, s: SearchModel) -> Option<usize> {
    if s.results.len() > 0 {
        Some(s.results[0].0)
    } else {
        sel
    }
}

/// Keys of the list pane.
pub open spec fn list_step(v: MainModel, len: nat, e: AppEvent) -> (MainModel, bool) {
    if is_key(e, KeyCode::Char('k')) {
        (MainModel { selected: cursor_up(v.selected, len), ..v }, true)
    } else if is_key(e, KeyCode::Char('j')) {
        (MainModel { selected: cursor_down(v.selected, len), ..v }, true)
    } else if is_key(e, KeyCode::Char('g')) {
        (MainModel { selected: cursor_first(len), ..v }, true)
    } else if is_key(e, KeyCode::Char('G')) {
        (MainModel { selected: cursor_last(len), ..v }, true)
    } else if is_key(e, KeyCode::Char('l')) && v.content is Some {
        (MainModel { focus: Focus::Content, ..v }, true)
    } else if is_key(e, KeyCode::Enter) && v.selected is Some {
        (MainModel { content: Some(fresh_content(v.selected->0)), ..v }, true)
    } else if is_key(e, KeyCode::Char(' ')) && v.selected is Some {
        (MainModel { focus: Focus::Content, content: Some(fresh_content(v.selected->0)), ..v }, true)
    } else if is_key(e, KeyCode::Char('/')) {
        (MainModel { focus: Focus::Search, search: Some(fresh_search()), ..v }, true)
    } else if is_key(e, KeyCode::Esc) && v.search is Some {
        (MainModel { search: None, ..v }, true)
    } else if is_key(e, KeyCode::Char('n')) && v.search is Some {
        let s = v.search->0;
        if s.results.len() == 0 {
            (v, true)
        } else {
            let f = (s.focused + 1) % s.results.len();
            (
                MainModel {
                    selected: Some(s.results[f as int].0),
                    search: Some(SearchModel { focused: f, ..s }),
                    ..v
                },
                true,
            )
        }
    } else if is_key(e, KeyCode::Char('N')) && v.search is Some {
        let s = v.search->0;
        if s.results.len() == 0 {
            (v, true)
        } else {
            let f: nat = if s.focused == 0 {
                (s.results.len() - 1) as nat
            } else {
                (s.focused - 1) as nat
            };
            (
                MainModel {
                    selected: Some(s.results[f as int].0),
                    search: Some(SearchModel { focused: f, ..s }),
                    ..v
                },
                true,
            )
        }
    } else {
        (v, false)
    }
}

/// Scroll position one line down, never past the end of the text.
pub open spec fn scroll_down(c: SelectedContent) -> usize {
    let next: int = if c.scroll_value == usize::MAX {
        c.scroll_value as int
    } else {
        c.scroll_value + 1
    };
    let bottom: int = if c.content_height >= c.viewport_height {
        c.content_height - c.viewport_height
    } else {
        0
    };
    if next <= bottom {
        next as usize
    } else {
        bottom as usize
    }
}

/// Keys of the detail pane.
pub open spec fn content_step(v: MainModel, e: AppEvent) -> (MainModel, bool) {
    let c = v.content->0;
    if is_key(e, KeyCode::Char('h')) {
        (MainModel { focus: Focus::List, ..v }, true)
    } else if is_key(e, KeyCode::Char('j')) {
        (MainModel { content: Some(SelectedContent { scroll_value: scroll_down(c), ..c }), ..v }, true)
    } else if is_key(e, KeyCode::Char('k')) {
        (
            MainModel {
                content: Some(
                    SelectedContent {
                        scroll_value: if c.scroll_value == 0 {
                            0usize
                        } else {
                            (c.scroll_value - 1) as usize
                        },
                        ..c
                    },
                ),
                ..v
            },
            true,
        )
    } else if is_key(e, KeyCode::Esc) {
        (MainModel { focus: Focus::List, content: None, ..v }, true)
    } else {
        (v, false)
    }
}

/// The view after its query changed to `query` with the caret at `cursor`.
pub open spec fn after_query(v: MainModel, query: Seq<char>, cursor: nat, items: Seq<BookmarkFile>) -> MainModel {
    let s = requeried(query, cursor, items);
    MainModel { selected: select_best(v.selected, s), search: Some(s), ..v }
}

/// Keys of the search line.
pub open spec fn search_step(v: MainModel, items: Seq<BookmarkFile>, e: AppEvent) -> (MainModel, bool) {
    let s = v.search->0;
    if is_plain_key(e, KeyCode::Backspace) && s.cursor == 0 && s.query.len() == 0 {
        (MainModel { focus: Focus::List, search: None, ..v }, true)
    } else if is_plain_key(e, KeyCode::Backspace) && s.cursor > 0 {
        (after_query(v, s.query.remove(s.cursor - 1), (s.cursor - 1) as nat, items), true)
    } else if is_key(e, KeyCode::End) || is_super_key(e, KeyCode::Right) {
        (MainModel { search: Some(SearchModel { cursor: s.query.len(), ..s }), ..v }, true)
    } else if is_plain_key(e, KeyCode::Right) && s.cursor < s.query.len() {
        (MainModel { search: Some(SearchModel { cursor: s.cursor + 1, ..s }), ..v }, true)
    } else if is_key(e, KeyCode::Home) || is_super_key(e, KeyCode::Left) {
        (MainModel { search: Some(SearchModel { cursor: 0, ..s }), ..v }, true)
    } else if is_plain_key(e, KeyCode::Left) && s.cursor > 0 {
        (MainModel { search: Some(SearchModel { cursor: (s.cursor - 1) as nat, ..s }), ..v }, true)
    } else if typed_char(e) is Some {
        (after_query(v, s.query.insert(s.cursor as int, typed_char(e)->0), s.cursor + 1, items), true)
    } else if is_key(e, KeyCode::Esc) {
        (MainModel { focus: Focus::List, search: None, ..v }, true)
    } else if is_key(e, KeyCode::Enter) {
        let s2 = SearchModel { focused: 0, ..s };
        if s.results.len() > 0 {
            let i = s.results[0].0;
            (
                MainModel {
                    focus: Focus::List,
                    selected: Some(i),
                    content: Some(fresh_content(i)),
                    search: Some(s2),
                    ..v
                },
                true,
            )
        } else {
            (MainModel { focus: Focus::List, search: Some(s2), ..v }, true)
        }
    } else {
        (v, false)
    }
}

/// The event edits the query of an active search: a character typed, or
/// backspace with characters before the caret.
pub open spec fn edits_query(v: MainModel, e: AppEvent) -> bool {
    &&& v.focus == Focus::Search
    &&& v.search is Some
    &&& typed_char(e) is Some || (is_plain_key(e, KeyCode::Backspace) && v.search->0.cursor > 0)
}

/// The view once a collection that is not empty has an entry selected.
pub open spec fn with_default_selection(v: MainModel, len: nat) -> MainModel {
    if v.selected is None && len > 0 {
        MainModel { selected: Some(0usize), ..v }
    } else {
        v
    }
}

/// The main view's reaction to an event: its next state, and whether it
/// handled the event.
pub open spec fn main_next(v0: MainModel, items: Seq<BookmarkFile>, loaded: bool, e: AppEvent) -> (MainModel, bool) {
    let v = with_default_selection(v0, items.len());
    let (w, handled) = match v.focus {
        Focus::List => list_step(v, items.len(), e),
        Focus::Content => content_step(v, e),
        Focus::Search => search_step(v, items, e),
    };
    if handled {
        (w, true)
    } else {
        (v, is_key(e, KeyCode::Char('o')) || (e == AppEvent::Tick && !loaded))
    }
}

/// The panes leave the event to the view's own fallback bindings.
pub open spec fn reaches_fallback(v0: MainModel, items: Seq<BookmarkFile>, e: AppEvent) -> bool {
    let v = with_default_selection(v0, items.len());
    !(match v.focus {
        Focus::List => list_step(v, items.len(), e),
        Focus::Content => content_step(v, e),
        Focus::Search => search_step(v, items, e),
    }.1)
}

/// The URL the event asks to open: that of the selected entry, on `o`.
pub open spec fn open_request(v0: MainModel, items: Seq<BookmarkFile>, e: AppEvent) -> Option<Seq<char>> {
    let v = with_default_selection(v0, items.len());
    if reaches_fallback(v0, items, e) && is_key(e, KeyCode::Char('o')) && v.selected is Some
        && v.selected->0 < items.len() {
        Some(items[v.selected->0 as int].content.url@)
    } else {
        None
    }
}

/// The event advances the loading spinner: a tick while loading.
pub open spec fn advances_spinner(v0: MainModel, items: Seq<BookmarkFile>, loaded: bool, e: AppEvent) -> bool {
    reaches_fallback(v0, items, e) && e == AppEvent::Tick && !loaded
}

/// What one event does to the main view and the shared state: the view
/// moves as `main_next` says; the collection stays; `o` leaves the selected
/// entry's URL to be opened; a tick while loading advances the spinner.
pub open spec fn main_post(
    m0: MainView,
    m1: MainView,
    st0: AppState,
    st1: AppState,
    e: AppEvent,
    r: EventState,
) -> bool {
    &&& (m1@, r is Handled) == main_next(m0@, st0.items@, st0.items_loaded, e)
    &&& r is Handled || r is NotHandled
    &&& edits_query(m0@, e) ==> scores_decided(m1@.search->0.query, entry_records(st0.items@))
    &&& st1.items@ == st0.items@
    &&& st1.items_loaded == st0.items_loaded
    &&& open_request(m0@, st0.items@, e) is Some ==> st1.pending_open is Some
        && st1.pending_open->0@ == open_request(m0@, st0.items@, e)->0
    &&& open_request(m0@, st0.items@, e) is None ==> st1.pending_open == st0.pending_open
    &&& advances_spinner(m0@, st0.items@, st0.items_loaded, e) ==> st1.loader.frame() == (
    st0.loader.frame() + 1) % (RANGE as nat + 1)
    &&& !advances_spinner(m0@, st0.items@, st0.items_loaded, e) ==> st1.loader == st0.loader
}

impl MainView {
    pub closed spec fn wf(&self) -> bool {
        &&& self.selected_block == Focus::Search ==> self.search is Some
        &&& self.selected_block == Focus::Content ==> self.selected_content is Some
        &&& self.search matches Some(s) ==> s.wf()
    }

    pub fn new() -> (r: MainView)
        ensures
            r.wf(),
            r@ == (MainModel { focus: Focus::List, selected: None, content: None, search: None }),
    {
        MainView { selected_block: Focus::List, selected: None, selected_content: None, search: None }
    }
}

fn cursor_down_exec(sel: Option<usize>, len: usize) -> (r: Option<usize>)
    ensures
        r == cursor_down(sel, len as nat),
{
    if len == 0 {
        None
    } else {
        match sel {
            None => Some(0),
            Some(i) => Some(
                if i < len - 1 {
                    i + 1
                } else {
                    len - 1
                },
            ),
        }
    }
}

fn cursor_up_exec(sel: Option<usize>, len: usize) -> (r: Option<usize>)
    ensures
        r == cursor_up(sel, len as nat),
{
    if len == 0 {
        None
    } else {
        match sel {
            None => Some(len - 1),
            Some(i) => Some(
                if i == 0 {
                    0
                } else if i - 1 < len {
                    i - 1
                } else {
                    len - 1
                },
            ),
        }
    }
}

fn new_content(i: usize) -> (r: SelectedContent)
    ensures
        r == fresh_content(i),
{
    SelectedContent { item_index: i, content_height: 0, viewport_height: 0, scroll_value: 0 }
}

impl MainView {
    fn handle_list(&mut self, len: usize, e: &AppEvent) -> (r: bool)
        requires
            old(self).wf(),
            old(self).selected_block == Focus::List,
        ensures
            final(self).wf(),
            (final(self)@, r) == list_step(old(self)@, len as nat, *e),
    {
        if key_is(e, KeyCode::Char('k')) {
            self.selected = cursor_up_exec(self.selected, len);
            true
        } else if key_is(e, KeyCode::Char('j')) {
            self.selected = cursor_down_exec(self.selected, len);
            true
        } else if key_is(e, KeyCode::Char('g')) {
            self.selected = if len == 0 {
                None
            } else {
                Some(0)
            };
            true
        } else if key_is(e, KeyCode::Char('G')) {
            self.selected = if len == 0 {
                None
            } else {
                Some(len - 1)
            };
            true
        } else if key_is(e, KeyCode::Char('l')) && self.selected_content.is_some() {
            self.selected_block = Focus::Content;
            true
        } else if key_is(e, KeyCode::Enter) && self.selected.is_some() {
            self.selected_content = Some(new_content(self.selected.unwrap()));
            true
        } else if key_is(e, KeyCode::Char(' ')) && self.selected.is_some() {
            self.selected_block = Focus::Content;
            self.selected_content = Some(new_content(self.selected.unwrap()));
            true
        } else if key_is(e, KeyCode::Char('/')) {
            self.search = Some(Search::new());
            self.selected_block = Focus::Search;
            true
        } else if key_is(e, KeyCode::Esc) && self.search.is_some() {
            self.search = None;
            true
        } else if key_is(e, KeyCode::Char('n')) && self.search.is_some() {
            let mut s = self.search.take().unwrap();
            let n = s.items.len();
            if n > 0 {
                let f = (s.latest_focused + 1) % n;
                s.latest_focused = f;
                self.selected = Some(s.items[f].0);
            }
            self.search = Some(s);
            true
        } else if key_is(e, KeyCode::Char('N')) && self.search.is_some() {
            let mut s = self.search.take().unwrap();
            let n = s.items.len();
            if n > 0 {
                let f = if s.latest_focused == 0 {
                    n - 1
                } else {
                    s.latest_focused - 1
                };
                s.latest_focused = f;
                self.selected = Some(s.items[f].0);
            }
            self.search = Some(s);
            true
        } else {
            false
        }
    }

    fn handle_content(&mut self, e: &AppEvent) -> (r: bool)
        requires
            old(self).wf(),
            old(self).selected_block == Focus::Content,
        ensures
            final(self).wf(),
            (final(self)@, r) == content_step(old(self)@, *e),
    {
        let c = self.selected_content.unwrap();
        if key_is(e, KeyCode::Char('h')) {
            self.selected_block = Focus::List;
            true
        } else if key_is(e, KeyCode::Char('j')) {
            let next = if c.scroll_value == usize::MAX {
                c.scroll_value
            } else {
                c.scroll_value + 1
            };
            let bottom = if c.content_height >= c.viewport_height {
                c.content_height - c.viewport_height
            } else {
                0
            };
            let scroll = if next <= bottom {
                next
            } else {
                bottom
            };
            self.selected_content = Some(SelectedContent { scroll_value: scroll, ..c });
            true
        } else if key_is(e, KeyCode::Char('k')) {
            let scroll = if c.scroll_value == 0 {
                0
            } else {
                c.scroll_value - 1
            };
            self.selected_content = Some(SelectedContent { scroll_value: scroll, ..c });
            true
        } else if key_is(e, KeyCode::Esc) {
            self.selected_block = Focus::List;
            self.selected_content = None;
            true
        } else {
            false
        }
    }

    fn handle_search(&mut self, items: &Vec<BookmarkFile>, e: &AppEvent) -> (r: bool)
        requires
            old(self).wf(),
            old(self).selected_block == Focus::Search,
        ensures
            final(self).wf(),
            (final(self)@, r) == search_step(old(self)@, items@, *e),
            edits_query(old(self)@, *e) ==> scores_decided(
                final(self)@.search->0.query,
                entry_records(items@),
            ),
    {
        let s = self.search.take().unwrap();
        let Search { value, cursor_pos, items: results, ranks, latest_focused } = s;
        let len = value.len();
        if plain_key_is(e, KeyCode::Backspace) && cursor_pos == 0 && len == 0 {
            self.selected_block = Focus::List;
            return true;
        }
        if plain_key_is(e, KeyCode::Backspace) && cursor_pos > 0 {
            let mut q = value;
            q.remove(cursor_pos - 1);
            let ns = Search::requery(q, cursor_pos - 1, items);
            if ns.items.len() > 0 {
                self.selected = Some(ns.items[0].0);
            }
            self.search = Some(ns);
            return true;
        }
        let ch = key_char(e);
        let (cursor, handled) = if key_is(e, KeyCode::End) || super_key_is(e, KeyCode::Right) {
            (len, true)
        } else if plain_key_is(e, KeyCode::Right) && cursor_pos < len {
            (cursor_pos + 1, true)
        } else if key_is(e, KeyCode::Home) || super_key_is(e, KeyCode::Left) {
            (0, true)
        } else if plain_key_is(e, KeyCode::Left) && cursor_pos > 0 {
            (cursor_pos - 1, true)
        } else {
            (cursor_pos, false)
        };
        if handled {
            self.search = Some(Search { value, cursor_pos: cursor, items: results, ranks, latest_focused });
            return true;
        }
        if let Some(c) = ch {
            let mut q = value;
            q.insert(cursor_pos, c);
            let grown = q.len();
            assert(cursor_pos < grown);
            let ns = Search::requery(q, cursor_pos + 1, items);
            if ns.items.len() > 0 {
                self.selected = Some(ns.items[0].0);
            }
            self.search = Some(ns);
            return true;
        }
        if key_is(e, KeyCode::Esc) {
            self.selected_block = Focus::List;
            return true;
        }
        if key_is(e, KeyCode::Enter) {
            if results.len() > 0 {
                let i = results[0].0;
                self.selected = Some(i);
                self.selected_content = Some(new_content(i));
            }
            self.selected_block = Focus::List;
            self.search = Some(Search { value, cursor_pos, items: results, ranks, latest_focused: 0 });
            return true;
        }
        self.search = Some(Search { value, cursor_pos, items: results, ranks, latest_focused });
        false
    }

    /// Reacts to one event. The panes take their keys first; what they leave
    /// goes to the view's own bindings: `o` asks to open the selected entry's
    /// URL, and a tick while loading advances the spinner.
    pub fn handle_app_event(&mut self, state: &mut AppState, event: &AppEvent) -> (r: EventState)
        requires
            old(self).wf(),
        ensures
            final(self).wf(),
            main_post(*old(self), *final(self), *old(state), *final(state), *event, r),
    {
        let len = state.items.len();
        if self.selected.is_none() && len > 0 {
            self.selected = Some(0);
        }
        let handled = match self.selected_block {
            Focus::List => self.handle_list(len, event),
            Focus::Content => self.handle_content(event),
            Focus::Search => self.handle_search(&state.items, event),
        };
        if handled {
            return EventState::Handled;
        }
        if key_is(event, KeyCode::Char('o')) {
            if let Some(i) = self.selected {
                if i < state.items.len() {
                    state.pending_open = Some(state.items[i].content.url.clone());
                }
            }
            return EventState::Handled;
        }
        if *event == AppEvent::Tick && !state.items_loaded {
            state.loader.next();
            return EventState::Handled;
        }
        EventState::NotHandled
    }
}

/// The view with the detail pane's measures replaced, if the pane is open.
pub open spec fn with_metrics(v: MainModel, content_height: usize, viewport_height: usize) -> MainModel {
    match v.content {
        Some(c) => MainModel {
            content: Some(SelectedContent { content_height, viewport_height, ..c }),
            ..v
        },
        None => v,
    }
}

/// What the status line of the main view shows.
#[derive(Debug, Clone, Copy, PartialEq, Eq, Structural)]
pub enum StatusKind {
    /// Key help of the list, with the detail pane open.
    ListWithContent,
    /// Key help of the list.
    List,
    /// Key help of the detail pane.
    Content,
    /// The search line being edited.
    SearchInput,
}

pub open spec fn status_kind_of(v: MainModel) -> StatusKind {
    match v.focus {
        Focus::List => if v.content is Some {
            StatusKind::ListWithContent
        } else {
            StatusKind::List
        },
        Focus::Content => StatusKind::Content,
        Focus::Search => StatusKind::SearchInput,
    }
}

/// The key help shown for each status kind; none for the search line.
pub open spec fn help_text(k: StatusKind) -> Option<&'static str> {
    match k {
        StatusKind::ListWithContent => Some(
            "Quit: q | Next: j | Prev: k | Open: o | Select: return | Focus Select: space | Search: / | Focus Content: l",
        ),
        StatusKind::List => Some(
            "Quit: q | Next: j | Prev: k | Open: o | Select: return | Focus Select: space | Search: /",
        ),
        StatusKind::Content => Some("Quit: q | Open: o | Focus List: h | Up: k | Down: j | Close: esc"),
        StatusKind::SearchInput => None,
    }
}

impl MainView {
    pub fn focus(&self) -> (r: Focus)
        ensures
            r == self@.focus,
    {
        self.selected_block
    }

    pub fn selected(&self) -> (r: Option<usize>)
        ensures
            r == self@.selected,
    {
        self.selected
    }

    pub fn selected_content(&self) -> (r: Option<SelectedContent>)
        ensures
            r == self@.content,
    {
        self.selected_content
    }

    /// Whether a search filter is active (search mode was entered and not left).
    pub fn filter_active(&self) -> (r: bool)
        ensures
            r == self@.search is Some,
    {
        self.search.is_some()
    }

    /// The query, while search mode is on.
    pub fn query(&self) -> (r: Option<&Vec<char>>)
        ensures
            r is Some == self@.search is Some,
            r matches Some(q) ==> q@ == self@.search->0.query,
    {
        match &self.search {
            Some(s) => Some(&s.value),
            None => None,
        }
    }

    /// The ranked results, while search mode is on.
    pub fn search_results(&self) -> (r: Option<&Vec<(usize, i64)>>)
        ensures
            r is Some == self@.search is Some,
            r matches Some(q) ==> q@ == self@.search->0.results,
    {
        match &self.search {
            Some(s) => Some(&s.items),
            None => None,
        }
    }

    /// The place of entry `i` among the search results, if it is one of them.
    pub fn rank_of(&self, i: usize) -> (r: Option<usize>)
        requires
            self.wf(),
        ensures
            self@.search is None ==> r is None,
            self@.search matches Some(s) ==> (r matches Some(k) ==> k < s.results.len()
                && s.results[k as int].0 == i),
            self@.search matches Some(s) ==> (r is None ==> forall|k: int|
                0 <= k < s.results.len() ==> (#[trigger] s.results[k]).0 != i),
    {
        match &self.search {
            Some(s) => {
                if i < s.ranks.len() {
                    s.ranks[i]
                } else {
                    None
                }
            },
            None => None,
        }
    }

    /// Which status line to show.
    pub fn status_kind(&self) -> (r: StatusKind)
        ensures
            r == status_kind_of(self@),
    {
        match self.selected_block {
            Focus::List => if self.selected_content.is_some() {
                StatusKind::ListWithContent
            } else {
                StatusKind::List
            },
            Focus::Content => StatusKind::Content,
            Focus::Search => StatusKind::SearchInput,
        }
    }

    /// Key help for the status line; none while the search line is edited.
    pub fn status_help(&self) -> (r: Option<&'static str>)
        ensures
            r == help_text(status_kind_of(self@)),
            r is None == (self@.focus == Focus::Search),
    {
        match self.status_kind() {
            StatusKind::ListWithContent => Some(
                "Quit: q | Next: j | Prev: k | Open: o | Select: return | Focus Select: space | Search: / | Focus Content: l",
            ),
            StatusKind::List => Some(
                "Quit: q | Next: j | Prev: k | Open: o | Select: return | Focus Select: space | Search: /",
            ),
            StatusKind::Content => Some(
                "Quit: q | Open: o | Focus List: h | Up: k | Down: j | Close: esc",
            ),
            StatusKind::SearchInput => None,
        }
    }

    /// Outside the search line, while a filter is active: the focused
    /// result counted from one, and the number of results.
    pub fn search_hint(&self) -> (r: Option<(usize, usize)>)
        requires
            self.wf(),
        ensures
            r is Some == (self@.focus != Focus::Search && self@.search is Some),
            r matches Some(h) ==> h.0 == self@.search->0.focused + 1 && h.1
                == self@.search->0.results.len(),
    {
        if self.selected_block == Focus::Search {
            return None;
        }
        match &self.search {
            Some(s) => {
                let n = s.items.len();
                Some((s.latest_focused + 1, n))
            },
            None => None,
        }
    }

    /// Caret position in the query, in characters, while the search line is
    /// edited.
    pub fn query_cursor(&self) -> (r: Option<usize>)
        requires
            self.wf(),
        ensures
            r is Some == (self@.focus == Focus::Search),
            r matches Some(c) ==> c == self@.search->0.cursor,
    {
        if self.selected_block != Focus::Search {
            return None;
        }
        match &self.search {
            Some(s) => Some(s.cursor_pos),
            None => None,
        }
    }

    /// Records the detail pane's measures, as the last drawing found them.
    pub fn set_content_metrics(&mut self, content_height: usize, viewport_height: usize)
        requires
            old(self).wf(),
        ensures
            final(self).wf(),
            final(self)@ == with_metrics(old(self)@, content_height, viewport_height),
    {
        if let Some(c) = self.selected_content {
            self.selected_content = Some(SelectedContent { content_height, viewport_height, ..c });
        }
    }
}

/// At the view, "no filter" and "filter active with no match" are two states:
/// `/` from the list turns on a filter that has a query of its own and no
/// results, and leaving search mode (escape, or backspace on an empty query)
/// turns the filter off again.
pub proof fn filter_states_are_distinct(v: MainModel, items: Seq<BookmarkFile>, loaded: bool, e: AppEvent)
    ensures
        v.focus == Focus::List && is_key(e, KeyCode::Char('/')) ==> main_next(v, items, loaded, e).0.search
            == Some(fresh_search()),
        v.focus == Focus::Search && v.search is Some && is_key(e, KeyCode::Esc) ==> main_next(
            v,
            items,
            loaded,
            e,
        ).0.search is None,
        v.focus == Focus::Search && v.search is Some && v.search->0.query.len() == 0
            && v.search->0.cursor == 0 && is_plain_key(e, KeyCode::Backspace) ==> main_next(
            v,
            items,
            loaded,
            e,
        ).0.search is None,
        fresh_search().results.len() == 0,
{
}

/// Typing a character in search mode that no entry matches once it is in
/// the query is handled, keeps the filter active, and leaves it with no
/// results.
pub proof fn unmatched_typing_empties_results(
    m0: MainView,
    m1: MainView,
    st0: AppState,
    st1: AppState,
    e: AppEvent,
    r: EventState,
    c: char,
)
    requires
        main_post(m0, m1, st0, st1, e, r),
        m0@.focus == Focus::Search,
        m0@.search is Some,
        typed_char(e) == Some(c),
        forall|i: int|
            0 <= i < st0.items@.len() ==> !record_matches(
                m0@.search->0.query.insert(m0@.search->0.cursor as int, c),
                #[trigger] st0.items@[i].content,
            ),
    ensures
        r is Handled,
        m1@.search is Some,
        m1@.search->0.results.len() == 0,
{
    let q = m0@.search->0.query.insert(m0@.search->0.cursor as int, c);
    let records = entry_records(st0.items@);
    let scores = scores_of(q, records);
    assert(m1@.search->0.query == q);
    assert forall|i: int| 0 <= i < scores.len() implies #[trigger] scores[i] is None by {
        assert(records[i] == st0.items@[i].content);
    }
    assert(is_ranking(Seq::empty(), scores));
    let res = search_results(q, st0.items@);
    assert(res == m1@.search->0.results);
    if res.len() > 0 {
        assert(scores[res[0].0 as int] == Some(res[0].1));
    }
}

} // verus!
