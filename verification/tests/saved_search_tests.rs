use mxr_tui::saved_search::{
    saved_search_form_validation_error, take_saved_search_form_request,
    take_saved_search_form_requests, SavedSearchFormState, SavedSearchRequest,
};

fn form(name: &str, query: &str, existing: Option<&str>) -> SavedSearchFormState {
    SavedSearchFormState {
        name: name.into(),
        query: query.into(),
        search_mode: "lexical".into(),
        existing_name: existing.map(str::to_string),
        validation_error: None,
    }
}

#[test]
fn validation_requires_name_then_query() {
    assert_eq!(
        saved_search_form_validation_error(&form("  ", "", None)).as_deref(),
        Some("Saved search name is required")
    );
    assert_eq!(
        saved_search_form_validation_error(&form("Inbox", " \t", None)).as_deref(),
        Some("Saved search query is required")
    );
    assert_eq!(saved_search_form_validation_error(&form("Inbox", "is:unread", None)), None);
}

#[test]
fn single_request_creates_and_closes() {
    let mut f = Some(form("Unread", "is:unread", None));
    match take_saved_search_form_request(&mut f) {
        Some(SavedSearchRequest::CreateSavedSearch { name, query, search_mode }) => {
            assert_eq!(name, "Unread");
            assert_eq!(query, "is:unread");
            assert_eq!(search_mode, "lexical");
        }
        _ => panic!("expected a creation"),
    }
    assert!(f.is_none());
    assert!(take_saved_search_form_request(&mut f).is_none());
}

#[test]
fn single_request_refuses_edit_forms() {
    let mut f = Some(form("Unread", "is:unread", Some("Old")));
    assert!(take_saved_search_form_request(&mut f).is_none());
    assert_eq!(
        f.unwrap().validation_error.as_deref(),
        Some("internal error: edit form requires take_saved_search_form_requests")
    );
}

#[test]
fn invalid_form_stays_open_with_error() {
    let mut f = Some(form("", "x", None));
    assert!(take_saved_search_form_requests(&mut f).is_none());
    assert_eq!(f.unwrap().validation_error.as_deref(), Some("Saved search name is required"));
}

#[test]
fn edit_deletes_then_creates() {
    let mut f = Some(form("New", "from:a", Some("Old")));
    let reqs = take_saved_search_form_requests(&mut f).unwrap();
    assert_eq!(reqs.len(), 2);
    match &reqs[0] {
        SavedSearchRequest::DeleteSavedSearch { name } => assert_eq!(name, "Old"),
        _ => panic!("expected a deletion first"),
    }
    match &reqs[1] {
        SavedSearchRequest::CreateSavedSearch { name, .. } => assert_eq!(name, "New"),
        _ => panic!("expected a creation second"),
    }
    assert!(f.is_none());
    let mut g = Some(form("N", "q", None));
    assert_eq!(take_saved_search_form_requests(&mut g).unwrap().len(), 1);
}
