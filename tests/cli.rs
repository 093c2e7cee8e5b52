use iri_client::{operation_rows, parse_pairs, PairError};

#[test]
fn parse_pairs_splits_at_first_equals() {
    let values = vec!["a=1".to_owned(), "b=x=y".to_owned(), "c=".to_owned()];
    let pairs = parse_pairs(&values, "--query").expect("valid pairs");
    assert_eq!(
        pairs,
        vec![
            ("a".to_owned(), "1".to_owned()),
            ("b".to_owned(), "x=y".to_owned()),
            ("c".to_owned(), String::new()),
        ]
    );
    assert!(parse_pairs(&[], "--query").expect("empty").is_empty());
}

#[test]
fn parse_pairs_rejects_missing_separator() {
    let values = vec!["a=1".to_owned(), "broken".to_owned(), "=x".to_owned()];
    match parse_pairs(&values, "--path-param") {
        Err(PairError::MissingSeparator { flag, item }) => {
            assert_eq!(flag, "--path-param");
            assert_eq!(item, "broken");
        }
        other => panic!("unexpected result: {other:?}"),
    }
}

#[test]
fn parse_pairs_rejects_empty_key() {
    let values = vec!["=x".to_owned()];
    match parse_pairs(&values, "--query") {
        Err(PairError::EmptyKey { flag, item }) => {
            assert_eq!(flag, "--query");
            assert_eq!(item, "=x");
        }
        other => panic!("unexpected result: {other:?}"),
    }
}

#[test]
fn operation_rows_filter_ignores_ascii_case() {
    let rows = operation_rows(Some("SITE"));
    assert_eq!(
        rows,
        vec![
            "getSites  GET  /api/v1/facility/sites".to_owned(),
            "getSite   GET  /api/v1/facility/sites/{site_id}".to_owned(),
        ]
    );
}

#[test]
fn operation_rows_pad_columns_to_longest_entry() {
    let rows = operation_rows(Some("job"));
    assert_eq!(
        rows,
        vec![
            "launchJob  POST    /api/v1/compute/job/{resource_id}".to_owned(),
            "cancelJob  DELETE  /api/v1/compute/job/{resource_id}/{job_id}".to_owned(),
        ]
    );
    assert_eq!(operation_rows(None).len(), 11);
    assert!(operation_rows(Some("nothing-matches")).is_empty());
}
