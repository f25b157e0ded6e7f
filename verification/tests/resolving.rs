use zero_cli::resolver::{is_short_id, join_ids, resolve, Candidate, EntityKind, ResolveError};
use zero_cli::text::{contains_text, same_text, starts_with};

fn candidate(id: &str, name: &str) -> Candidate {
    Candidate { id: id.to_string(), name: name.to_string() }
}

fn two_projects() -> Vec<Candidate> {
    vec![
        candidate("dc1c5d6e-1a2b-4c3d-9e8f-000000000001", "Cli secrets"),
        candidate("dc3c7a8b-1a2b-4c3d-9e8f-000000000002", "Other"),
    ]
}

#[test]
fn resolve_returns_the_single_match() {
    let listing = two_projects();
    let got = resolve(EntityKind::Project, "dc1c", &listing);
    assert_eq!(got.unwrap(), "dc1c5d6e-1a2b-4c3d-9e8f-000000000001");
    let got = resolve(EntityKind::Project, "dc3c", &listing);
    assert_eq!(got.unwrap(), "dc3c7a8b-1a2b-4c3d-9e8f-000000000002");
}

#[test]
fn resolve_reports_both_ids_of_an_ambiguous_fragment() {
    let listing = vec![candidate("dc1c-aaaa", "a"), candidate("dc1d-bbbb", "b")];
    match resolve(EntityKind::Project, "dc1", &listing) {
        Err(ResolveError::Ambiguous { kind, fragment, ids }) => {
            assert_eq!(kind, EntityKind::Project);
            assert_eq!(fragment, "dc1");
            assert_eq!(ids, vec!["dc1c-aaaa".to_string(), "dc1d-bbbb".to_string()]);
        }
        other => panic!("expected an ambiguous fragment, got {:?}", other),
    }
}

#[test]
fn resolve_reports_a_fragment_that_nothing_starts_with() {
    let listing = two_projects();
    match resolve(EntityKind::Team, "ffff", &listing) {
        Err(ResolveError::NotFound { kind, fragment }) => {
            assert_eq!(kind, EntityKind::Team);
            assert_eq!(fragment, "ffff");
        }
        other => panic!("expected not found, got {:?}", other),
    }
}

#[test]
fn resolve_on_an_empty_listing_finds_nothing() {
    let listing: Vec<Candidate> = Vec::new();
    assert!(matches!(
        resolve(EntityKind::Secret, "abcd", &listing),
        Err(ResolveError::NotFound { .. })
    ));
}

#[test]
fn resolve_never_picks_among_several() {
    let listing = vec![
        candidate("abcd1", "x"),
        candidate("zzzz", "y"),
        candidate("abcd2", "z"),
        candidate("abcd3", "w"),
    ];
    match resolve(EntityKind::Token, "abcd", &listing) {
        Err(ResolveError::Ambiguous { ids, .. }) => {
            assert_eq!(ids, vec!["abcd1".to_string(), "abcd2".to_string(), "abcd3".to_string()]);
        }
        other => panic!("expected an ambiguous fragment, got {:?}", other),
    }
    assert_eq!(resolve(EntityKind::Token, "abcd2", &listing).unwrap(), "abcd2");
}

#[test]
fn resolve_matches_the_prefix_only_and_by_case() {
    let listing = vec![candidate("ABCD-1", "upper"), candidate("xxabcd", "inner")];
    assert!(matches!(
        resolve(EntityKind::Project, "abcd", &listing),
        Err(ResolveError::NotFound { .. })
    ));
    assert_eq!(resolve(EntityKind::Project, "ABCD", &listing).unwrap(), "ABCD-1");
}

#[test]
fn resolve_twice_gives_the_same() {
    let listing = two_projects();
    let first = resolve(EntityKind::Project, "dc", &listing);
    let second = resolve(EntityKind::Project, "dc", &listing);
    assert_eq!(format!("{:?}", first), format!("{:?}", second));
    let first = resolve(EntityKind::Project, "dc1c", &listing);
    let second = resolve(EntityKind::Project, "dc1c", &listing);
    assert_eq!(first.unwrap(), second.unwrap());
}

#[test]
fn resolve_ignores_the_names() {
    let one = vec![candidate("dc1c-1", "first"), candidate("dc3c-2", "second")];
    let other = vec![candidate("dc1c-1", "renamed"), candidate("dc3c-2", "also renamed")];
    assert_eq!(
        resolve(EntityKind::Project, "dc1c", &one).unwrap(),
        resolve(EntityKind::Project, "dc1c", &other).unwrap()
    );
}

#[test]
fn starts_with_edge_cases() {
    assert!(starts_with("dc1c-rest", "dc1c"));
    assert!(starts_with("dc1c", "dc1c"));
    assert!(starts_with("dc1c", ""));
    assert!(starts_with("", ""));
    assert!(!starts_with("dc1", "dc1c"));
    assert!(!starts_with("", "d"));
    assert!(!starts_with("Dc1c", "dc1c"));
    assert!(starts_with("h\u{e9}llo", "h\u{e9}"));
    assert!(!starts_with("hello", "h\u{e9}"));
}

#[test]
fn same_text_and_contains_text() {
    assert!(same_text("abc", "abc"));
    assert!(!same_text("abc", "abd"));
    assert!(!same_text("abc", "ab"));
    assert!(!same_text("ab", "abc"));
    assert!(same_text("", ""));
    let names = vec!["one".to_string(), "two".to_string()];
    assert!(contains_text(&names, "two"));
    assert!(!contains_text(&names, "tw"));
    assert!(!contains_text(&Vec::new(), "two"));
}

#[test]
fn messages_of_failed_resolutions() {
    let not_found = ResolveError::NotFound { kind: EntityKind::Team, fragment: "ffff".to_string() };
    assert_eq!(not_found.message(), "No team has an ID that starts with ffff.");
    let ambiguous = ResolveError::Ambiguous {
        kind: EntityKind::UsageRecord,
        fragment: "dc1".to_string(),
        ids: vec!["dc1c".to_string(), "dc1d".to_string()],
    };
    assert_eq!(
        ambiguous.message(),
        "More than one usage record has an ID that starts with dc1: dc1c, dc1d."
    );
}

#[test]
fn labels_and_joined_ids() {
    assert_eq!(EntityKind::Team.label(), "team");
    assert_eq!(EntityKind::Project.label(), "project");
    assert_eq!(EntityKind::Token.label(), "token");
    assert_eq!(EntityKind::Secret.label(), "secret");
    assert_eq!(EntityKind::UsageRecord.label(), "usage record");
    assert_eq!(join_ids(&Vec::new()), "");
    assert_eq!(join_ids(&vec!["a".to_string()]), "a");
    assert_eq!(join_ids(&vec!["a".to_string(), "b".to_string(), "c".to_string()]), "a, b, c");
}

#[test]
fn a_short_id_has_four_characters_or_more() {
    assert!(!is_short_id(""));
    assert!(!is_short_id("dc1"));
    assert!(is_short_id("dc1c"));
    assert!(is_short_id("dc1c5d6e-1a2b-4c3d-9e8f-000000000001"));
    assert!(!is_short_id("\u{e9}\u{e9}\u{e9}"));
    assert!(is_short_id("\u{e9}\u{e9}\u{e9}\u{e9}"));
}
