use bookmarks::record::{folder_of, BookmarkFile, BookmarkRecord};
use bookmarks::search::{rank_matches, search, search_entries};

fn record(url: &str) -> BookmarkRecord {
    BookmarkRecord {
        path: vec![],
        title: None,
        url: url.to_string(),
        tags: None,
        description: None,
        embeddings: None,
    }
}

fn file(r: BookmarkRecord) -> BookmarkFile {
    BookmarkFile { content: r, path: String::new(), relative_path: String::new() }
}

#[test]
fn fuzzy_string_joins_and_folds() {
    let r = BookmarkRecord {
        path: vec!["dev".to_string()],
        title: Some("Rust Book".to_string()),
        url: "https://doc.rust-lang.org/book".to_string(),
        tags: Some(vec!["Lang".to_string(), String::new(), "Docs".to_string()]),
        description: Some("The Book".to_string()),
        embeddings: None,
    };
    assert_eq!(
        r.fuzzy_string(),
        "lang docs rust book https://doc.rust-lang.org/book the book"
    );
}

#[test]
fn fuzzy_string_of_url_alone() {
    assert_eq!(record("ABC-Example").fuzzy_string(), "abc-example");
}

#[test]
fn rank_matches_orders_by_score_then_index() {
    let scores = vec![Some(3), None, Some(7), Some(3), Some(-1), Some(7)];
    assert_eq!(rank_matches(&scores), vec![(2, 7), (5, 7), (0, 3), (3, 3), (4, -1)]);
}

#[test]
fn rank_matches_of_nothing() {
    assert_eq!(rank_matches(&vec![None, None]), vec![]);
    assert_eq!(rank_matches(&vec![]), vec![]);
}

#[test]
fn search_scores_never_increase() {
    let records = vec![
        record("https://example.com/rust"),
        record("https://rust-lang.org"),
        record("https://nothing.here"),
        record("rust"),
        record("https://r.u.s.t"),
    ];
    let r = search("rust", &records);
    assert!(!r.is_empty());
    for w in r.windows(2) {
        assert!(w[0].1 >= w[1].1);
        if w[0].1 == w[1].1 {
            assert!(w[0].0 < w[1].0);
        }
    }
    assert!(r.iter().all(|(i, _)| *i != 2));
}

#[test]
fn search_folds_the_query() {
    let records = vec![record("abc-example")];
    let lower = search("ab", &records);
    let upper = search("AB", &records);
    assert_eq!(lower, upper);
    assert_eq!(lower.len(), 1);
}

#[test]
fn empty_query_matches_nothing() {
    let records = vec![record("a"), record("b")];
    assert!(search("", &records).is_empty());
    let files = vec![file(record("a"))];
    assert!(search_entries("", &files).is_empty());
}

#[test]
fn search_on_no_records() {
    assert!(search("abc", &vec![]).is_empty());
}

#[test]
fn search_entries_matches_search() {
    let records = vec![record("alpha"), record("beta"), record("alphabet")];
    let files: Vec<BookmarkFile> = records.iter().cloned().map(file).collect();
    assert_eq!(search("alp", &records), search_entries("alp", &files));
    assert_eq!(search("zzz", &records), vec![]);
}

#[test]
fn folder_of_drops_file_name() {
    let c = vec!["a".to_string(), "b".to_string(), "x.toml".to_string()];
    assert_eq!(folder_of(c), vec!["a".to_string(), "b".to_string()]);
    assert_eq!(folder_of(vec![]), Vec::<String>::new());
}

#[test]
fn rank_matches_agrees_with_reference_order() {
    let mut scores = Vec::new();
    let mut x: i64 = 7;
    for i in 0..500 {
        x = (x * 1103515245 + 12345) % 2147483648;
        scores.push(if i % 7 == 3 { None } else { Some(x % 17 - 8) });
    }
    let mut expected: Vec<(usize, i64)> = scores
        .iter()
        .enumerate()
        .filter_map(|(i, s)| s.map(|s| (i, s)))
        .collect();
    expected.sort_by(|a, b| b.1.cmp(&a.1).then(a.0.cmp(&b.0)));
    assert_eq!(rank_matches(&scores), expected);
}

#[test]
fn search_keeps_exactly_the_subsequence_matches() {
    let records = vec![record("abc"), record("bac"), record("xaxbx"), record("ba")];
    let mut found: Vec<usize> = search("ab", &records).iter().map(|p| p.0).collect();
    found.sort();
    assert_eq!(found, vec![0, 2]);
}

#[test]
fn search_matches_across_case() {
    let records = vec![record("GitHub"), record("gitlab")];
    let mut found: Vec<usize> = search("GH", &records).iter().map(|p| p.0).collect();
    found.sort();
    assert_eq!(found, vec![0]);
}
