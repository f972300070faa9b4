use zxp::error::ErrorKind;
use zxp::listing::{parse_listing, ArtifactEntry, ArtifactListing};
use zxp::selector::artifact_url;

fn entry(name: &str, url: &str) -> ArtifactEntry {
    ArtifactEntry { name: name.to_string(), download_url: url.to_string() }
}

fn listing(entries: Vec<ArtifactEntry>) -> ArtifactListing {
    ArtifactListing::new(entries.len() as u64, entries).unwrap()
}

const TWO: &str = r#"{"total_count": 2, "artifacts": [
    {"name": "a", "archive_download_url": "u1"},
    {"name": "b", "archive_download_url": "u2"}]}"#;

#[test]
fn scenario_requested_name_resolves_to_its_url() {
    let l = parse_listing(TWO).unwrap();
    assert_eq!(artifact_url(&l, Some("b".to_string())), Ok("u2".to_string()));
}

#[test]
fn scenario_no_name_resolves_to_first_url() {
    let l = parse_listing(TWO).unwrap();
    assert_eq!(artifact_url(&l, None), Ok("u1".to_string()));
}

#[test]
fn no_name_takes_entry_zero_for_every_size() {
    for n in 1..6usize {
        let mut entries = Vec::new();
        for i in 0..n {
            entries.push(entry(&format!("n{i}"), &format!("u{i}")));
        }
        let l = listing(entries);
        assert_eq!(l.count(), n);
        assert_eq!(artifact_url(&l, None), Ok("u0".to_string()));
    }
}

#[test]
fn no_name_on_empty_listing_is_not_found() {
    let l = listing(Vec::new());
    let e = artifact_url(&l, None).unwrap_err();
    assert_eq!(e.kind, ErrorKind::NotFound);
    assert_eq!(e.message(), "No artifacts are available");
}

#[test]
fn first_of_several_entries_with_one_name_is_chosen() {
    let l = listing(vec![
        entry("x", "u0"),
        entry("dup", "u1"),
        entry("dup", "u2"),
        entry("dup", "u3"),
    ]);
    assert_eq!(artifact_url(&l, Some("dup".to_string())), Ok("u1".to_string()));
    assert_eq!(artifact_url(&l, Some("x".to_string())), Ok("u0".to_string()));
}

#[test]
fn absent_name_is_not_found_and_named_in_the_message() {
    for n in 0..4usize {
        let mut entries = Vec::new();
        for i in 0..n {
            entries.push(entry(&format!("n{i}"), &format!("u{i}")));
        }
        let l = listing(entries);
        let e = artifact_url(&l, Some("missing".to_string())).unwrap_err();
        assert_eq!(e.kind, ErrorKind::NotFound);
        assert_eq!(e.message, "Artifact named \"missing\" does not exists");
        assert!(e.message.contains("missing"));
    }
}

#[test]
fn names_match_exactly_and_with_case() {
    let l = listing(vec![entry("Repo", "u1"), entry("repo ", "u2"), entry("repo", "u3")]);
    assert_eq!(artifact_url(&l, Some("repo".to_string())), Ok("u3".to_string()));
    assert!(artifact_url(&l, Some("REPO".to_string())).is_err());
    assert!(artifact_url(&l, Some("rep".to_string())).is_err());
}
