use vstd::prelude::*;

verus! {

/// One bookmark as stored on disk.
#[derive(Debug, Clone)]
pub struct BookmarkRecord {
    /// Folders leading from the collection root to the record's file.
    pub path: Vec<String>,
    pub title: Option<String>,
    pub url: String,
    pub tags: Option<Vec<String>>,
    pub description: Option<String>,
    /// Embedding vector, each component kept as its IEEE-754 bit pattern.
    pub embeddings: Option<Vec<u32>>,
}

/// A record together with the file it was read from.
#[derive(Debug, Clone)]
pub struct BookmarkFile {
    pub content: BookmarkRecord,
    pub path: String,
    pub relative_path: String,
}

/// Words made of the non-empty tags, in order.
pub open spec fn tag_words(tags: Seq<String>) -> Seq<Seq<char>>
    decreases tags.len(),
{
    if tags.len() == 0 {
        Seq::empty()
    } else {
        let rest = tag_words(tags.drop_last());
        if tags.last()@.len() > 0 {
            rest.push(tags.last()@)
        } else {
            rest
        }
    }
}

/// Words separated by single spaces.
pub open spec fn join_words(words: Seq<Seq<char>>) -> Seq<char>
    decreases words.len(),
{
    if words.len() == 0 {
        Seq::empty()
    } else if words.len() == 1 {
        words[0]
    } else {
        join_words(words.drop_last()) + seq![' '] + words.last()
    }
}

/// The words a record is searched by: tags, title, url, description.
pub open spec fn record_words(r: BookmarkRecord) -> Seq<Seq<char>> {
    let tags = match r.tags {
        Some(t) => tag_words(t@),
        None => Seq::empty(),
    };
    let with_title = match r.title {
        Some(t) => tags.push(t@),
        None => tags,
    };
    let with_url = with_title.push(r.url@);
    match r.description {
        Some(d) => with_url.push(d@),
        None => with_url,
    }
}

/// The record's words joined by spaces, before case folding.
pub open spec fn joined_text(r: BookmarkRecord) -> Seq<char> {
    join_words(record_words(r))
}

/// What `str::to_lowercase` gives for a string.
pub uninterp spec fn lower_of(s: Seq<char>) -> Seq<char>;

/// Relies on `str::to_lowercase`: the result depends on the characters alone.
#[verifier::external_body]
pub(crate) fn to_lower(s: &str) -> (r: String)
    ensures
        r@ == lower_of(s@),
{
    s.to_lowercase()
}

/// Relies on `String::push`: appends one character.
#[verifier::external_body]
pub(crate) fn push_char(s: &mut String, c: char)
    ensures
        final(s)@ == old(s)@.push(c),
{
    s.push(c)
}

proof fn lemma_join_push(words: Seq<Seq<char>>, w: Seq<char>)
    ensures
        join_words(words.push(w)) == if words.len() == 0 {
            w
        } else {
            join_words(words) + seq![' '] + w
        },
{
    assert(words.push(w).drop_last() =~= words);
}

/// Appends one word, with a separating space unless it is the first.
fn append_word(acc: &mut String, w: &str, first: bool, Ghost(words): Ghost<Seq<Seq<char>>>)
    requires
        old(acc)@ == join_words(words),
        first == (words.len() == 0),
    ensures
        final(acc)@ == join_words(words.push(w@)),
{
    proof {
        lemma_join_push(words, w@);
    }
    if first {
        proof {
            assert(old(acc)@ =~= Seq::<char>::empty());
        }
        acc.append(w);
        assert(acc@ =~= w@);
    } else {
        push_char(acc, ' ');
        acc.append(w);
        assert(acc@ =~= join_words(words) + seq![' '] + w@);
    }
}

impl BookmarkRecord {
    /// The case-folded text that the search engine matches against.
    pub fn fuzzy_string(&self) -> (r: String)
        ensures
            r@ == lower_of(joined_text(*self)),
    {
        let mut acc = String::new();
        let ghost mut words: Seq<Seq<char>> = Seq::empty();
        let mut first = true;
        match &self.tags {
            Some(tags) => {
                let mut i: usize = 0;
                while i < tags.len()
                    invariant
                        i <= tags@.len(),
                        words == tag_words(tags@.take(i as int)),
                        first == (words.len() == 0),
                        acc@ == join_words(words),
                    decreases tags@.len() - i,
                {
                    let t = &tags[i];
                    proof {
                        assert(tags@.take(i + 1).drop_last() =~= tags@.take(i as int));
                    }
                    if !t.as_str().is_empty() {
                        append_word(&mut acc, t.as_str(), first, Ghost(words));
                        first = false;
                        proof {
                            words = words.push(t@);
                        }
                    }
                    i += 1;
                }
                assert(tags@.take(tags@.len() as int) =~= tags@);
            },
            None => {},
        }
        match &self.title {
            Some(t) => {
                append_word(&mut acc, t.as_str(), first, Ghost(words));
                first = false;
                proof {
                    words = words.push(t@);
                }
            },
            None => {},
        }
        append_word(&mut acc, self.url.as_str(), first, Ghost(words));
        first = false;
        proof {
            words = words.push(self.url@);
        }
        match &self.description {
            Some(d) => {
                append_word(&mut acc, d.as_str(), first, Ghost(words));
                proof {
                    words = words.push(d@);
                }
            },
            None => {},
        }
        assert(words == record_words(*self));
        to_lower(acc.as_str())
    }
}

/// The folders of a file's path relative to the collection root: every
/// component but the last, which names the file itself.
pub fn folder_of(components: Vec<String>) -> (r: Vec<String>)
    ensures
        components@.len() == 0 ==> r@.len() == 0,
        components@.len() > 0 ==> r@ == components@.drop_last(),
{
    let mut c = components;
    c.pop();
    c
}

} // verus!
