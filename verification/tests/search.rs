use mnem_cli::search::{
    distinct_keys, filter_locations, group_by_key, highlight_match, search_time_label, Highlight,
    SearchRequest,
};

fn strings(v: &[&str]) -> Vec<String> {
    v.iter().map(|s| s.to_string()).collect()
}

#[test]
fn search_options_are_read() {
    let r = SearchRequest::parse(&strings(&["mnem", "search", "-n", "5", "needle", "--file", "a.rs", "-s", "other"]));
    assert_eq!(r.query, "needle");
    assert_eq!(r.limit, 5);
    assert_eq!(r.file_filter, Some("a.rs".to_string()));
    assert!(r.symbol_mode);
    let d = SearchRequest::parse(&strings(&["mnem", "search"]));
    assert_eq!(d.query, "");
    assert_eq!(d.limit, 50);
    assert!(!d.symbol_mode);
    let bad = SearchRequest::parse(&strings(&["mnem", "search", "--limit", "many", "q"]));
    assert_eq!(bad.limit, 50);
    assert_eq!(bad.query, "q");
    let dangling = SearchRequest::parse(&strings(&["mnem", "search", "q", "--file"]));
    assert_eq!(dangling.file_filter, None);
}

#[test]
fn hits_are_grouped_in_order_of_appearance() {
    let keys = strings(&["b", "a", "b", "c", "a"]);
    assert_eq!(distinct_keys(&keys), strings(&["b", "a", "c"]));
    let g = group_by_key(&keys);
    assert_eq!(g.len(), 3);
    assert_eq!(g[0].key, "b");
    assert_eq!(g[0].positions, vec![0, 2]);
    assert_eq!(g[1].positions, vec![1, 4]);
    assert_eq!(g[2].positions, vec![3]);
    let paths = strings(&["src/a.rs", "lib/b.rs", "src/c.rs"]);
    assert_eq!(filter_locations(&paths, &Some("src".to_string()), 1, 10), vec![0, 2]);
    assert_eq!(filter_locations(&paths, &None, 1, 2), vec![0, 1]);
    assert_eq!(filter_locations(&paths, &None, 2, 2), vec![2]);
    assert_eq!(filter_locations(&paths, &None, 0, 2), vec![0, 1]);
    assert_eq!(filter_locations(&paths, &Some("src".to_string()), 3, 1), Vec::<usize>::new());
}

#[test]
fn matches_are_highlighted_without_regard_to_case() {
    match highlight_match("Hello World", "world") {
        Some(Highlight::Parts { before, matched, after }) => {
            assert_eq!(before, "Hello ");
            assert_eq!(matched, "World");
            assert_eq!(after, "");
        }
        _ => panic!("expected a match"),
    }
    assert!(matches!(highlight_match("abc", "x"), Some(Highlight::Plain)));
    // the lowercase of 'İ' is longer than 'İ', so the match cannot be cut
    assert!(highlight_match("İx", "x").is_none());
}

#[test]
fn hit_times() {
    assert_eq!(search_time_label("2024-01-02T03:04:05Z"), Some("2024-01-02 03:04".to_string()));
    assert_eq!(search_time_label("2024-01-02T03:04:05 junk"), Some("2024-01-02 03:04".to_string()));
    assert_eq!(search_time_label("short"), None);
}
