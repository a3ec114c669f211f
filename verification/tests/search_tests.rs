use docsearch::search::{IndexError, QueryError, SearchService, SearchableDocument, MIN_WRITER_BUDGET};

fn doc(id: &str, title: &str, body: &str, source: &str, version: Option<&str>) -> SearchableDocument {
    SearchableDocument {
        id: id.to_string(),
        title: title.to_string(),
        body: body.to_string(),
        source: source.to_string(),
        version: version.map(|v| v.to_string()),
    }
}

#[test]
fn round_trip_by_title_word() {
    let mut svc = SearchService::new_in_ram();
    svc.add_document(doc("doc-1", "alpha beta", "some body text", "rust-docs", None), 50_000_000)
        .unwrap();
    let results = svc.search_documents("alpha", 10).unwrap();
    assert!(results.iter().any(|d| d.id == "doc-1"));
}

#[test]
fn version_none_round_trip() {
    let mut svc = SearchService::new_in_ram();
    svc.add_document(doc("doc-2", "gamma title", "body words", "api-spec", None), 50_000_000)
        .unwrap();
    let results = svc.search_documents("gamma", 10).unwrap();
    assert_eq!(results.len(), 1);
    assert_eq!(results[0].version, None);
    assert_eq!(results[0].id, "doc-2");
    assert_eq!(results[0].title, "gamma title");
    assert_eq!(results[0].body, "body words");
    assert_eq!(results[0].source, "api-spec");
}

#[test]
fn version_some_round_trip() {
    let mut svc = SearchService::new_in_ram();
    svc.add_document(doc("doc-3", "delta title", "body", "api-spec", Some("v1")), 50_000_000)
        .unwrap();
    let results = svc.search_documents("delta", 10).unwrap();
    assert_eq!(results.len(), 1);
    assert_eq!(results[0].version, Some("v1".to_string()));
}

#[test]
fn duplicate_ids_both_retrievable() {
    let mut svc = SearchService::new_in_ram();
    svc.add_document(doc("same-id", "epsilon one", "first body", "a", None), 50_000_000).unwrap();
    svc.add_document(doc("same-id", "epsilon two", "second body", "a", None), 50_000_000).unwrap();
    let results = svc.search_documents("epsilon", 10).unwrap();
    assert_eq!(results.len(), 2);
    assert!(results.iter().all(|d| d.id == "same-id"));
    let bodies: Vec<&str> = results.iter().map(|d| d.body.as_str()).collect();
    assert!(bodies.contains(&"first body"));
    assert!(bodies.contains(&"second body"));
}

#[test]
fn budget_zero_rejected_and_index_unchanged() {
    let mut svc = SearchService::new_in_ram();
    svc.add_document(doc("kept", "zeta title", "stays put", "a", None), 50_000_000).unwrap();
    let err = svc.add_document(doc("lost", "zeta other", "never lands", "a", None), 0).unwrap_err();
    assert!(matches!(err, IndexError::BudgetTooSmall));
    let results = svc.search_documents("zeta", 10).unwrap();
    assert_eq!(results.len(), 1);
    assert_eq!(results[0].id, "kept");
}

#[test]
fn budget_just_below_minimum_rejected() {
    let mut svc = SearchService::new_in_ram();
    let err = svc
        .add_document(doc("x", "t", "b", "s", None), MIN_WRITER_BUDGET - 1)
        .unwrap_err();
    assert!(matches!(err, IndexError::BudgetTooSmall));
}

#[test]
fn budget_at_minimum_accepted() {
    let mut svc = SearchService::new_in_ram();
    svc.add_document(doc("y", "eta title", "b", "s", None), MIN_WRITER_BUDGET).unwrap();
    let results = svc.search_documents("eta", 10).unwrap();
    assert_eq!(results.len(), 1);
}

#[test]
fn search_limit_caps_results() {
    let mut svc = SearchService::new_in_ram();
    for i in 0..15 {
        svc.add_document(
            doc(&format!("doc-{i}"), "theta common", "shared words here", "src", None),
            50_000_000,
        )
        .unwrap();
    }
    let results = svc.search_documents("theta", 5).unwrap();
    assert_eq!(results.len(), 5);
    let all = svc.search_documents("theta", 100).unwrap();
    assert_eq!(all.len(), 15);
}

#[test]
fn empty_index_search_is_ok_and_empty() {
    let svc = SearchService::new_in_ram();
    let results = svc.search_documents("anything", 10).unwrap();
    assert!(results.is_empty());
}

#[test]
fn limit_zero_yields_empty() {
    let mut svc = SearchService::new_in_ram();
    svc.add_document(doc("z", "iota title", "b", "s", None), 50_000_000).unwrap();
    let results = svc.search_documents("iota", 0).unwrap();
    assert!(results.is_empty());
}

#[test]
fn malformed_query_is_parse_error() {
    let svc = SearchService::new_in_ram();
    let err = svc.search_documents("title:\"unclosed", 10).unwrap_err();
    assert!(matches!(err, QueryError::ParseError(_)));
}

#[test]
fn on_disk_index_round_trip_and_reopen() {
    let dir = tempfile::tempdir().unwrap();
    let path = dir.path().to_str().unwrap().to_string();
    {
        let mut svc = SearchService::new(&path).unwrap();
        svc.add_document(doc("disk-1", "kappa title", "on disk", "s", None), 50_000_000).unwrap();
        let results = svc.search_documents("kappa", 10).unwrap();
        assert_eq!(results.len(), 1);
    }
    // Reopening the same directory sees the committed document.
    let svc = SearchService::new(&path).unwrap();
    let results = svc.search_documents("kappa", 10).unwrap();
    assert_eq!(results.len(), 1);
    assert_eq!(results[0].id, "disk-1");
}

#[test]
fn missing_directory_fails_to_open() {
    let dir = tempfile::tempdir().unwrap();
    let missing = dir.path().join("not-there");
    let r = SearchService::new(missing.to_str().unwrap());
    match r {
        Ok(_) => panic!("opening a missing directory must fail"),
        Err(e) => assert!(!e.message.is_empty()),
    }
}
