//! OpenSearch clusters.

use mdoctor::endpoints::Endpoint;
use mdoctor::http_probe::{parse_response, HttpProbeError, HttpResponse};
use mdoctor::opensearch_inspector::{
    find_catalog_indices, inspect_opensearch, parse_opensearch_health_json,
    DEFAULT_OPENSEARCH_PORT,
};

fn answer(status: &str, body: &str) -> Result<HttpResponse, HttpProbeError> {
    let raw = format!(
        "HTTP/1.1 {}\r\nContent-Length: {}\r\n\r\n{}",
        status,
        body.len(),
        body
    );
    parse_response(raw.as_bytes())
}

fn node() -> Endpoint {
    Endpoint::parse("search-1", DEFAULT_OPENSEARCH_PORT).unwrap()
}

#[test]
fn test_parse_opensearch_health() {
    let json = r#"{
  "cluster_name": "magento-search-prod",
  "status": "green",
  "timed_out": false,
  "number_of_nodes": 3,
  "number_of_data_nodes": 3,
  "active_primary_shards": 12,
  "active_shards": 24,
  "relocating_shards": 0,
  "initializing_shards": 0,
  "unassigned_shards": 0
}"#;

    let status = parse_opensearch_health_json(json);
    assert_eq!(status.status.as_deref(), Some("green"));
    assert_eq!(status.cluster_name.as_deref(), Some("magento-search-prod"));
    assert_eq!(status.number_of_nodes, Some(3));
    assert_eq!(status.active_primary_shards, Some(12));
    assert_eq!(status.unassigned_shards, Some(0));
}

#[test]
fn a_cluster_is_read_with_its_indices_and_version() {
    let health = answer("200 OK", r#"{"cluster_name":"c","status":"yellow","number_of_nodes":1}"#);
    let listing = answer("200 OK", r#"[{"index":"shop_product_1_v3"},{"index":".kibana"},{"x":1}]"#);
    let root = answer("200 OK", r#"{"version":{"number":"2.11.0"}}"#);
    let status = inspect_opensearch(&node(), &health, &listing, &root);
    assert!(status.is_reachable && status.is_configured);
    assert_eq!(status.version.as_deref(), Some("2.11.0"));
    assert!(status.has_catalog_index);
    assert_eq!(status.catalog_index_names, vec!["shop_product_1_v3".to_string()]);
    assert!(status.catalog_index_probe.is_success());
}

#[test]
fn a_secured_cluster_is_not_an_empty_one() {
    let denied = answer("401 Unauthorized", "");
    let status = inspect_opensearch(&node(), &denied, &denied, &denied);
    assert!(!status.is_reachable && status.is_configured);
    assert!(status.probe.describe().contains("401"));
    assert_eq!(status.number_of_nodes, None);
}

#[test]
fn an_unread_listing_leaves_the_index_unknown() {
    let health = answer("200 OK", r#"{"status":"green"}"#);
    let denied = answer("403 Forbidden", "");
    let status = inspect_opensearch(&node(), &health, &denied, &denied);
    assert!(status.is_reachable);
    assert!(!status.has_catalog_index);
    assert!(status.catalog_index_probe.is_inconclusive());
    assert_eq!(status.version, None);
}

#[test]
fn text_that_is_no_health_report_is_not_a_cluster() {
    let page = answer("200 OK", "<html></html>");
    let status = inspect_opensearch(&node(), &page, &page, &page);
    assert!(!status.is_reachable);
    assert!(status.probe.is_inconclusive());
}

#[test]
fn catalog_indices_are_found_whatever_their_prefix() {
    let names = vec![
        Some("magento2_product_1".to_string()),
        None,
        Some("logs".to_string()),
        Some("shop_category_2".to_string()),
        Some("catalogsearch_fulltext_scope1".to_string()),
    ];
    assert_eq!(find_catalog_indices(&names).len(), 3);
}

#[test]
fn a_body_that_is_no_document_reaches_nothing() {
    for body in ["", "   ", "<html></html>", "{\"status\":"] {
        let status = parse_opensearch_health_json(body);
        assert!(status.is_configured && !status.is_reachable);
        assert_eq!(status.status, None);
        assert_eq!(status.number_of_nodes, None);
    }
    assert!(parse_opensearch_health_json(r#"{"status":"green"}"#).is_reachable);
}

#[test]
fn a_document_without_a_status_keeps_its_figures() {
    let health = answer("200 OK", r#"{"cluster_name":"c","number_of_nodes":2}"#);
    let denied = answer("403 Forbidden", "");
    let status = inspect_opensearch(&node(), &health, &denied, &denied);
    assert!(status.is_reachable && status.probe.is_success());
    assert_eq!(status.status, None);
    assert_eq!(status.cluster_name.as_deref(), Some("c"));
    assert_eq!(status.number_of_nodes, Some(2));
}
