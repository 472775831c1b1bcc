use vstd::prelude::*;

use crate::record::BookmarkFile;

verus! {

/// First code point of the spinner's glyphs.
pub const START_CHAR: u32 = 0xEE06;

/// Last code point of the spinner's glyphs.
pub const END_CHAR: u32 = 0xEE0B;

/// Number of glyphs after the first.
pub const RANGE: u16 = 5;

/// The loading spinner: which of its glyphs shows.
#[derive(Debug)]
pub struct Loader {
    frame: u16,
}

impl Loader {
    #[verifier::type_invariant]
    spec fn inv(&self) -> bool {
        self.frame <= RANGE
    }

    pub closed spec fn frame(&self) -> nat {
        self.frame as nat
    }

    pub fn new() -> (r: Loader)
        ensures
            r.frame() == 0,
    {
        Loader { frame: 0 }
    }

    /// Shows the next glyph, starting over after the last.
    pub fn next(&mut self)
        ensures
            final(self).frame() == (old(self).frame() + 1) % (RANGE as nat + 1),
    {
        proof {
            use_type_invariant(&*self);
        }
        self.frame = (self.frame + 1) % (RANGE + 1);
    }

    /// The code point of the glyph that shows.
    pub fn glyph(&self) -> (r: u32)
        ensures
            r == START_CHAR + self.frame(),
            START_CHAR <= r <= END_CHAR,
    {
        proof {
            use_type_invariant(self);
        }
        START_CHAR + self.frame as u32
    }
}

impl Default for Loader {
    fn default() -> (r: Loader)
        ensures
            r.frame() == 0,
    {
        Loader::new()
    }
}

/// State shared by the views: the collection of loaded entries, whether
/// loading has finished, the spinner, and a URL the user asked to open.
#[derive(Debug)]
pub struct AppState {
    /// Loaded entries; only ever appended to, so an index names the same entry
    /// for the life of the state.
    pub items: Vec<BookmarkFile>,
    pub items_loaded: bool,
    pub loader: Loader,
    /// A URL to hand to the system's opener; the caller takes it.
    pub pending_open: Option<String>,
}

impl AppState {
    pub fn new() -> (r: AppState)
        ensures
            r.items@.len() == 0,
            !r.items_loaded,
            r.loader.frame() == 0,
            r.pending_open is None,
    {
        AppState {
            items: Vec::new(),
            items_loaded: false,
            loader: Loader::new(),
            pending_open: None,
        }
    }

    /// Appends one loaded entry.
    pub fn push_entry(&mut self, file: BookmarkFile)
        ensures
            final(self).items@ == old(self).items@.push(file),
            final(self).items_loaded == old(self).items_loaded,
            final(self).loader == old(self).loader,
            final(self).pending_open == old(self).pending_open,
    {
        self.items.push(file);
    }

    /// Records that loading has finished.
    pub fn mark_loaded(&mut self)
        ensures
            final(self).items@ == old(self).items@,
            final(self).items_loaded,
            final(self).loader == old(self).loader,
            final(self).pending_open == old(self).pending_open,
    {
        self.items_loaded = true;
    }

    /// Hands out the URL the user asked to open, if any, and forgets it.
    pub fn take_open_request(&mut self) -> (r: Option<String>)
        ensures
            r == old(self).pending_open,
            final(self).pending_open is None,
            final(self).items@ == old(self).items@,
            final(self).items_loaded == old(self).items_loaded,
            final(self).loader == old(self).loader,
    {
        self.pending_open.take()
    }
}

impl Default for AppState {
    fn default() -> (r: AppState)
        ensures
            r.items@.len() == 0,
            !r.items_loaded,
            r.loader.frame() == 0,
            r.pending_open is None,
    {
        AppState::new()
    }
}

/// Appending an entry at position `k` keeps every entry before `k` where it
/// was, and the new entry is found at `k`.
pub proof fn append_is_index_stable(items: Seq<BookmarkFile>, e: BookmarkFile, k: int)
    requires
        k == items.len(),
    ensures
        forall|i: int| 0 <= i < k ==> #[trigger] items.push(e)[i] == items[i],
        items.push(e)[k] == e,
        items.push(e).len() == k + 1,
{
}

} // verus!
