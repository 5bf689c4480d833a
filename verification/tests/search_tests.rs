use at::search::{
    consider_entry, ignored_entry_name, keep_walked_entry, search_has_room, search_query_text,
    SearchFilter, SearchRequest, SearchResult,
};

fn request(query: Option<&str>, filter: SearchFilter, limit: usize) -> SearchRequest {
    SearchRequest {
        roots: vec!["/r".to_owned()],
        query: query.map(|q| q.to_owned()),
        filter,
        ignore_names: vec!["target".to_owned()],
        limit,
    }
}

#[test]
fn matches_query_case_insensitively_below_the_root() {
    let req = request(Some("NightLight"), SearchFilter::All, 10);
    let query = search_query_text(&req);
    assert_eq!(query, "nightlight");
    let mut results: Vec<SearchResult> = Vec::new();
    assert!(!consider_entry(&req, &query, "/r", "/r/NightLight.toml", false, &mut results));
    assert_eq!(results.len(), 1);
    assert_eq!(results[0].path, "/r/NightLight.toml");
    assert_eq!(results[0].source, "/r");
    assert!(!results[0].is_dir);
}

#[test]
fn queries_match_relative_paths_only() {
    let req = request(Some("nightlight"), SearchFilter::All, 10);
    let query = search_query_text(&req);
    let mut results: Vec<SearchResult> = Vec::new();
    consider_entry(
        &req,
        &query,
        "/t/nightlight-root",
        "/t/nightlight-root/notes.txt",
        false,
        &mut results,
    );
    assert!(results.is_empty());
}

#[test]
fn filters_keep_only_the_asked_kind() {
    let mut results: Vec<SearchResult> = Vec::new();
    let dirs = request(Some("src"), SearchFilter::Dirs, 10);
    consider_entry(&dirs, "src", "/r", "/r/src", true, &mut results);
    consider_entry(&dirs, "src", "/r", "/r/src/main.rs", false, &mut results);
    assert_eq!(results.len(), 1);
    assert!(results[0].is_dir);

    let mut results: Vec<SearchResult> = Vec::new();
    let files = request(Some("src"), SearchFilter::Files, 10);
    consider_entry(&files, "src", "/r", "/r/src", true, &mut results);
    consider_entry(&files, "src", "/r", "/r/src/main.rs", false, &mut results);
    assert_eq!(results.len(), 1);
    assert!(results[0].path.ends_with("main.rs"));
}

#[test]
fn the_root_itself_is_never_a_result() {
    let req = request(None, SearchFilter::All, 10);
    let mut results: Vec<SearchResult> = Vec::new();
    assert!(!consider_entry(&req, "", "/r", "/r", true, &mut results));
    assert!(results.is_empty());
}

#[test]
fn search_stops_at_the_limit() {
    let req = request(None, SearchFilter::All, 2);
    let mut results: Vec<SearchResult> = Vec::new();
    assert!(search_has_room(&req, &results));
    assert!(!consider_entry(&req, "", "/r", "/r/a", false, &mut results));
    assert!(consider_entry(&req, "", "/r", "/r/b", false, &mut results));
    assert!(!search_has_room(&req, &results));
    assert_eq!(results.len(), 2);
    assert!(!search_has_room(&request(None, SearchFilter::All, 0), &Vec::new()));
}

#[test]
fn prunes_ignored_names_below_the_root() {
    let ignore = vec!["target".to_owned()];
    assert!(ignored_entry_name("/r/target", &ignore));
    assert!(!ignored_entry_name("/r/targets", &ignore));
    assert!(!keep_walked_entry("/r", "/r/target", &ignore));
    assert!(keep_walked_entry("/x/target", "/x/target", &ignore));
    assert!(keep_walked_entry("/r", "/r/src", &ignore));
}
