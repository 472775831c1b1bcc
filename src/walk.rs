use vstd::prelude::*;

verus! {

/// What a directory entry is.
#[derive(Debug, Clone, Copy, PartialEq, Eq, Structural)]
pub enum EntryKind {
    Directory,
    File,
    Other,
}

/// What a walk over the collection's directory tree does with an entry.
#[derive(Debug, Clone, Copy, PartialEq, Eq, Structural)]
pub enum WalkAction {
    /// Walk into the directory.
    Descend,
    /// Hand out the file: it holds a record.
    Yield,
    Skip,
}

/// Record files are those named `*.toml`.
pub open spec fn is_record_extension(ext: Seq<char>) -> bool {
    ext == seq!['t', 'o', 'm', 'l']
}

pub open spec fn walk_action_of(kind: EntryKind, ext: Option<Seq<char>>) -> WalkAction {
    match kind {
        EntryKind::Directory => WalkAction::Descend,
        EntryKind::File => if ext matches Some(x) && is_record_extension(x) {
            WalkAction::Yield
        } else {
            WalkAction::Skip
        },
        EntryKind::Other => WalkAction::Skip,
    }
}

fn record_extension(ext: &str) -> (r: bool)
    ensures
        r == is_record_extension(ext@),
{
    if ext.unicode_len() != 4 {
        return false;
    }
    let r = ext.get_char(0) == 't' && ext.get_char(1) == 'o' && ext.get_char(2) == 'm'
        && ext.get_char(3) == 'l';
    assert(r == (ext@ =~= seq!['t', 'o', 'm', 'l']));
    r
}

/// Decides what to do with one directory entry: descend into directories,
/// hand out `.toml` files, skip the rest.
pub fn walk_action(kind: EntryKind, extension: Option<&str>) -> (r: WalkAction)
    ensures
        r == walk_action_of(
            kind,
            match extension {
                Some(x) => Some(x@),
                None => None,
            },
        ),
{
    match kind {
        EntryKind::Directory => WalkAction::Descend,
        EntryKind::File => match extension {
            Some(x) => if record_extension(x) {
                WalkAction::Yield
            } else {
                WalkAction::Skip
            },
            None => WalkAction::Skip,
        },
        EntryKind::Other => WalkAction::Skip,
    }
}

} // verus!
