use zxp::error::ErrorKind;
use zxp::listing::{
    artifact_report, listing_from_json, listing_url, parse_listing, ArtifactEntry,
    ArtifactListing,
};

fn entry(name: &str, url: &str) -> ArtifactEntry {
    ArtifactEntry { name: name.to_string(), download_url: url.to_string() }
}

#[test]
fn listing_url_joins_service_repository_and_path() {
    assert_eq!(
        listing_url("owner/repo"),
        "https://api.github.com/repos/owner/repo/actions/artifacts"
    );
    assert_eq!(listing_url(""), "https://api.github.com/repos//actions/artifacts");
}

#[test]
fn parse_reads_entries_in_order_and_ignores_extra_fields() {
    let body = r#"{"total_count": 2, "other": [1, 2], "artifacts": [
        {"id": 7, "name": "a", "archive_download_url": "u1", "expired": false},
        {"name": "b", "archive_download_url": "u2"}]}"#;
    let l = parse_listing(body).unwrap();
    assert_eq!(l.count(), 2);
    assert_eq!(l.get(0), Some(&entry("a", "u1")));
    assert_eq!(l.entry(1), &entry("b", "u2"));
    assert_eq!(l.get(2), None);
}

#[test]
fn parse_reads_only_the_first_count_entries() {
    let body = r#"{"total_count": 1, "artifacts": [
        {"name": "a", "archive_download_url": "u1"}, 42, "junk"]}"#;
    let l = parse_listing(body).unwrap();
    assert_eq!(l.count(), 1);
    assert_eq!(l.get(0), Some(&entry("a", "u1")));
}

#[test]
fn parse_accepts_an_empty_listing() {
    let l = parse_listing(r#"{"total_count": 0, "artifacts": []}"#).unwrap();
    assert_eq!(l.count(), 0);
    assert_eq!(l.get(0), None);
}

#[test]
fn parse_rejects_text_that_is_no_json() {
    let e = parse_listing("not json at all").unwrap_err();
    assert_eq!(e.kind, ErrorKind::Protocol);
    assert!(e.message.starts_with("Json conversion failed: "));
    let e = parse_listing("").unwrap_err();
    assert_eq!(e.kind, ErrorKind::Protocol);
}

fn rejected(body: &str) {
    let e = parse_listing(body).unwrap_err();
    assert_eq!(e.kind, ErrorKind::Protocol, "{body}");
    assert_eq!(e.message, "Artifact listing is malformed", "{body}");
}

#[test]
fn parse_rejects_a_missing_or_misshaped_count() {
    rejected(r#"{"artifacts": []}"#);
    rejected(r#"{"total_count": "2", "artifacts": []}"#);
    rejected(r#"{"total_count": -1, "artifacts": []}"#);
    rejected(r#"{"total_count": 1.5, "artifacts": []}"#);
    rejected(r#"{"total_count": null, "artifacts": []}"#);
    rejected(r#"[]"#);
    rejected(r#"3"#);
}

#[test]
fn parse_rejects_a_missing_or_misshaped_array() {
    rejected(r#"{"total_count": 0}"#);
    rejected(r#"{"total_count": 0, "artifacts": "none"}"#);
    rejected(r#"{"total_count": 0, "artifacts": {}}"#);
    rejected(r#"{"total_count": 1, "artifacts": {"0": {"name": "a", "archive_download_url": "u"}}}"#);
}

#[test]
fn parse_rejects_fewer_entries_than_the_count() {
    rejected(r#"{"total_count": 2, "artifacts": [{"name": "a", "archive_download_url": "u1"}]}"#);
    rejected(r#"{"total_count": 18446744073709551615, "artifacts": []}"#);
}

#[test]
fn parse_rejects_a_misshaped_entry() {
    rejected(r#"{"total_count": 1, "artifacts": [{"archive_download_url": "u1"}]}"#);
    rejected(r#"{"total_count": 1, "artifacts": [{"name": "a"}]}"#);
    rejected(r#"{"total_count": 1, "artifacts": [{"name": 1, "archive_download_url": "u1"}]}"#);
    rejected(r#"{"total_count": 1, "artifacts": [{"name": "a", "archive_download_url": null}]}"#);
    rejected(r#"{"total_count": 1, "artifacts": ["a"]}"#);
}

#[test]
fn listing_from_json_reads_a_built_value() {
    let mut first = serde_json::Map::new();
    first.insert("name".to_string(), serde_json::Value::String("a".to_string()));
    first.insert("archive_download_url".to_string(), serde_json::Value::String("u1".to_string()));
    let mut doc = serde_json::Map::new();
    doc.insert("total_count".to_string(), serde_json::Value::Number(serde_json::Number::from(1u64)));
    doc.insert(
        "artifacts".to_string(),
        serde_json::Value::Array(vec![serde_json::Value::Object(first)]),
    );
    let l = listing_from_json(&serde_json::Value::Object(doc)).unwrap();
    assert_eq!(l.count(), 1);
    assert_eq!(l.entry(0), &entry("a", "u1"));
    let e = listing_from_json(&serde_json::Value::Null).unwrap_err();
    assert_eq!(e.kind, ErrorKind::Protocol);
}

#[test]
fn new_keeps_the_first_count_entries() {
    let l = ArtifactListing::new(1, vec![entry("a", "u1"), entry("b", "u2")]).unwrap();
    assert_eq!(l.count(), 1);
    assert_eq!(l.get(0), Some(&entry("a", "u1")));
    assert_eq!(l.get(1), None);
    let e = ArtifactListing::new(3, vec![entry("a", "u1")]).unwrap_err();
    assert_eq!(e.kind, ErrorKind::Protocol);
    assert_eq!(e.message, "Artifact listing is malformed");
}

#[test]
fn report_has_a_header_and_one_line_for_each_artifact() {
    let mut entries = Vec::new();
    for i in 0..11 {
        entries.push(entry(&format!("pkg{i}"), "u"));
    }
    let l = ArtifactListing::new(11, entries).unwrap();
    let lines = artifact_report(&l);
    assert_eq!(lines.len(), 12);
    assert_eq!(lines[0], "Available artifacts:");
    assert_eq!(lines[1], "\tartifact 0 = pkg0");
    assert_eq!(lines[11], "\tartifact 10 = pkg10");
    let empty = ArtifactListing::new(0, Vec::new()).unwrap();
    assert_eq!(artifact_report(&empty), vec!["Available artifacts:".to_string()]);
}
