use iri_client::catalog::OperationDefinition;
use iri_client::resolve::parse_method;
use iri_client::{find_operation, render_path, resolve, ClientError, IriClient};

#[test]
fn operation_catalog_is_non_empty() {
    assert!(!IriClient::operations().is_empty());
}

#[test]
fn render_path_replaces_required_path_params() {
    let op = find_operation("getSite").expect("operation exists");
    let path = render_path(op, &[("site_id", "site-1")]).expect("path renders");
    assert_eq!(path, "/api/v1/facility/sites/site-1");
}

#[test]
fn render_path_reports_missing_parameter() {
    let op = find_operation("getSite").expect("operation exists");
    let error = render_path(op, &[]).expect_err("missing parameter should error");
    match error {
        ClientError::MissingPathParameter {
            operation_id,
            parameter,
        } => {
            assert_eq!(operation_id, "getSite");
            assert_eq!(parameter, "site_id");
        }
        other => panic!("unexpected error: {other:?}"),
    }
}

#[test]
fn catalog_keeps_declaration_order() {
    let ops = IriClient::operations();
    assert_eq!(ops[0].operation_id, "getFacility");
    assert_eq!(ops[1].operation_id, "getSites");
    assert_eq!(ops[2].operation_id, "getSite");
    assert_eq!(ops[2].path_template, "/api/v1/facility/sites/{site_id}");
    assert_eq!(ops[2].path_params, &["site_id"]);
}

#[test]
fn resolve_renders_site_path() {
    let (method, path) = resolve("getSite", &[("site_id", "site-1")]).expect("resolves");
    assert_eq!(method, "GET");
    assert_eq!(path, "/api/v1/facility/sites/site-1");
}

#[test]
fn resolve_without_parameters_reports_first_missing() {
    match resolve("getSite", &[]) {
        Err(ClientError::MissingPathParameter {
            operation_id,
            parameter,
        }) => {
            assert_eq!(operation_id, "getSite");
            assert_eq!(parameter, "site_id");
        }
        other => panic!("unexpected result: {other:?}"),
    }
}

#[test]
fn resolve_reports_first_missing_in_declaration_order() {
    match resolve("cancelJob", &[("job_id", "7")]) {
        Err(ClientError::MissingPathParameter { parameter, .. }) => {
            assert_eq!(parameter, "resource_id");
        }
        other => panic!("unexpected result: {other:?}"),
    }
}

#[test]
fn resolve_unknown_operation() {
    match resolve("noSuchOperation", &[]) {
        Err(ClientError::UnknownOperation(id)) => assert_eq!(id, "noSuchOperation"),
        other => panic!("unexpected result: {other:?}"),
    }
}

#[test]
fn find_operation_is_exact() {
    assert!(matches!(
        find_operation("getsite"),
        Err(ClientError::UnknownOperation(_))
    ));
    assert_eq!(find_operation("getSites").expect("exists").path_params.len(), 0);
}

#[test]
fn render_path_encodes_reserved_characters() {
    let op = find_operation("getSite").expect("operation exists");
    let path = render_path(op, &[("site_id", "a/b c?d")]).expect("path renders");
    assert_eq!(path, "/api/v1/facility/sites/a%2Fb%20c%3Fd");
}

#[test]
fn render_path_encodes_non_ascii_bytes() {
    let op = find_operation("getSite").expect("operation exists");
    let path = render_path(op, &[("site_id", "é")]).expect("path renders");
    assert_eq!(path, "/api/v1/facility/sites/%C3%A9");
}

#[test]
fn render_path_ignores_extra_and_uses_first_duplicate() {
    let op = find_operation("getProjectAllocation").expect("operation exists");
    let path = render_path(
        op,
        &[
            ("unused", "x"),
            ("allocation_id", "a1"),
            ("project_id", "p1"),
            ("project_id", "p2"),
        ],
    )
    .expect("path renders");
    assert_eq!(path, "/api/v1/account/projects/p1/allocations/a1");
}

#[test]
fn invalid_catalog_method_is_unknown_operation() {
    let op = OperationDefinition {
        operation_id: "broken",
        method: "NOT A METHOD",
        path_template: "/x",
        path_params: &[],
    };
    match parse_method(&op) {
        Err(ClientError::UnknownOperation(id)) => assert_eq!(id, "broken"),
        other => panic!("unexpected result: {other:?}"),
    }
    let post = OperationDefinition {
        operation_id: "make",
        method: "POST",
        path_template: "/x",
        path_params: &[],
    };
    assert_eq!(parse_method(&post).expect("valid"), "POST");
}

#[test]
fn render_path_keeps_only_unreserved_characters() {
    let op = find_operation("getSite").expect("operation exists");
    let path = render_path(op, &[("site_id", "A-z_0.9~*+{}")]).expect("path renders");
    assert_eq!(path, "/api/v1/facility/sites/A-z_0.9~%2A%2B%7B%7D");
}

#[test]
fn render_path_ignores_extra_pairs_before_and_after() {
    let op = find_operation("getSite").expect("operation exists");
    let before = render_path(op, &[("other", "1"), ("site_id", "s")]).expect("renders");
    let after = render_path(op, &[("site_id", "s"), ("other", "1")]).expect("renders");
    assert_eq!(before, "/api/v1/facility/sites/s");
    assert_eq!(after, before);
}

#[test]
fn resolve_returns_the_catalog_method() {
    let (method, path) = resolve("cancelJob", &[("resource_id", "r"), ("job_id", "7")])
        .expect("resolves");
    assert_eq!(method, "DELETE");
    assert_eq!(path, "/api/v1/compute/job/r/7");
}
