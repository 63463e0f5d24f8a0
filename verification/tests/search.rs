//! Project search rules.

use jueming::ids::{DocumentId, RevisionId};
use jueming::search::{
    check_expected_revision, page_window, sessions_full, spec_changed, validate_search_spec,
    PageWindow, SearchSpec,
};

fn spec(query: &str, regex: bool) -> SearchSpec {
    SearchSpec {
        query: query.into(),
        regex,
        case_sensitive: false,
        language_id: None,
        document_ids: None,
    }
}

#[test]
fn regular_expressions_are_validated_by_the_engine() {
    assert!(validate_search_spec(&spec("a(b", false)).is_ok());
    let error = validate_search_spec(&spec("a(b", true)).unwrap_err();
    assert_eq!(error.code, "invalid_regex");
    assert!(!error.message.is_empty());
    assert!(validate_search_spec(&spec("^[a-z]+$", true)).is_ok());
}

#[test]
fn a_changed_spec_is_detected_field_by_field() {
    let base = spec("q", false);
    assert!(!spec_changed(&base, &base.clone()));
    assert!(spec_changed(&base, &spec("r", false)));
    assert!(spec_changed(&base, &spec("q", true)));
    let mut other = base.clone();
    other.language_id = Some("en".into());
    assert!(spec_changed(&base, &other));
    let mut docs = base.clone();
    docs.document_ids = Some(vec![DocumentId::from_u128(1)]);
    assert!(spec_changed(&base, &docs));
    let mut docs2 = docs.clone();
    assert!(!spec_changed(&docs, &docs2));
    docs2.document_ids = Some(vec![DocumentId::from_u128(2)]);
    assert!(spec_changed(&docs, &docs2));
}

#[test]
fn searches_are_tied_to_a_revision() {
    assert!(check_expected_revision(None, RevisionId::new(3)).is_ok());
    assert!(check_expected_revision(Some(RevisionId::new(3)), RevisionId::new(3)).is_ok());
    assert_eq!(
        check_expected_revision(Some(RevisionId::new(2)), RevisionId::new(3)).unwrap_err().code,
        "stale_revision"
    );
    assert!(!sessions_full(31));
    assert!(sessions_full(32));
}

#[test]
fn pages_are_clamped_and_chain_to_the_end() {
    assert_eq!(page_window(0, 50, 120), PageWindow { start: 0, end: 50, next_cursor: Some(50) });
    assert_eq!(page_window(100, 50, 120), PageWindow { start: 100, end: 120, next_cursor: None });
    assert_eq!(page_window(0, 0, 5), PageWindow { start: 0, end: 1, next_cursor: Some(1) });
    assert_eq!(page_window(0, 1000, 500), PageWindow { start: 0, end: 200, next_cursor: Some(200) });
    assert_eq!(page_window(900, 10, 5), PageWindow { start: 5, end: 5, next_cursor: None });
    assert_eq!(page_window(usize::MAX, 10, 5), PageWindow { start: 5, end: 5, next_cursor: None });
    let mut cursor = 0;
    let mut served = 0;
    loop {
        let page = page_window(cursor, 7, 30);
        served += page.end - page.start;
        match page.next_cursor {
            Some(next) => cursor = next,
            None => break,
        }
    }
    assert_eq!(served, 30);
}
