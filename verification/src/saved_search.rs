//! The saved-search form: its validation, and the requests a completed
//! form turns into.
use vstd::prelude::*;
use crate::action::Action;
use crate::text::{blank, owned, is_blank};

verus! {

broadcast use vstd::string::group_string_axioms;

/// The form that creates or edits a saved search.
pub struct SavedSearchFormState {
    pub name: String,
    pub query: String,
    /// The search mode the saved search runs with, by name.
    pub search_mode: String,
    /// The name of the saved search being edited; `None` for a new one.
    pub existing_name: Option<String>,
    pub validation_error: Option<String>,
}

/// A request to the daemon about saved searches.
pub enum SavedSearchRequest {
    CreateSavedSearch { name: String, query: String, search_mode: String },
    DeleteSavedSearch { name: String },
}

/// Why a form cannot be saved, if it cannot: a blank name, then a blank
/// query.
pub open spec fn form_error(form: SavedSearchFormState) -> Option<Seq<char>> {
    if is_blank(form.name@) {
        Some("Saved search name is required"@)
    } else if is_blank(form.query@) {
        Some("Saved search query is required"@)
    } else {
        None
    }
}

/// Why the form cannot be saved, if it cannot.
pub fn saved_search_form_validation_error(form: &SavedSearchFormState) -> (r: Option<String>)
    ensures
        match form_error(*form) {
            Some(e) => r matches Some(s) && s@ == e,
            None => r is None,
        },
{
    if blank(form.name.as_str()) {
        return Some(owned("Saved search name is required"));
    }
    if blank(form.query.as_str()) {
        return Some(owned("Saved search query is required"));
    }
    None
}

/// The message left on an edit form handed to the single-request path.
pub open spec fn edit_path_error() -> Seq<char> {
    "internal error: edit form requires take_saved_search_form_requests"@
}

/// Whether `r` creates the saved search the form describes.
pub open spec fn creates(r: SavedSearchRequest, form: SavedSearchFormState) -> bool {
    match r {
        SavedSearchRequest::CreateSavedSearch { name, query, search_mode } => {
            &&& name@ == form.name@
            &&& query@ == form.query@
            &&& search_mode@ == form.search_mode@
        },
        _ => false,
    }
}

/// Whether `form2` is `form` with its validation error set to `e`.
pub open spec fn with_error(form2: SavedSearchFormState, form: SavedSearchFormState, e: Seq<char>) -> bool {
    &&& form2.name == form.name
    &&& form2.query == form.query
    &&& form2.search_mode == form.search_mode
    &&& form2.existing_name == form.existing_name
    &&& match form2.validation_error {
        Some(s) => s@ == e,
        None => false,
    }
}

/// Whether the form is still open, holding `f` with error `e`.
pub open spec fn kept_with_error(form: Option<SavedSearchFormState>, f: SavedSearchFormState, e: Seq<char>) -> bool {
    match form {
        Some(f2) => with_error(f2, f, e),
        None => false,
    }
}

/// Whether `r` is the single request creating the saved search of `f`.
pub open spec fn single_creation(r: Option<SavedSearchRequest>, f: SavedSearchFormState) -> bool {
    match r {
        Some(req) => creates(req, f),
        None => false,
    }
}

/// Whether `reqs` save `f`: the deletion under the old name for an edit,
/// then the creation.
pub open spec fn saving_requests(reqs: Seq<SavedSearchRequest>, f: SavedSearchFormState) -> bool {
    match f.existing_name {
        Some(old_name) => {
            &&& reqs.len() == 2
            &&& match reqs[0] {
                SavedSearchRequest::DeleteSavedSearch { name } => name@ == old_name@,
                _ => false,
            }
            &&& creates(reqs[1], f)
        },
        None => reqs.len() == 1 && creates(reqs[0], f),
    }
}

fn create_request(form: &SavedSearchFormState) -> (r: SavedSearchRequest)
    ensures
        creates(r, *form),
{
    SavedSearchRequest::CreateSavedSearch {
        name: form.name.clone(),
        query: form.query.clone(),
        search_mode: form.search_mode.clone(),
    }
}

/// The request that creates a new saved search from the open form.
/// Nothing without a form. A form that edits a saved search, or that
/// does not validate, stays open with the reason set as its error; a
/// valid new form is closed and its request returned.
pub fn take_saved_search_form_request(form: &mut Option<SavedSearchFormState>) -> (r: Option<
    SavedSearchRequest,
>)
    ensures
        match *old(form) {
            None => r is None && *final(form) is None,
            Some(f) => if f.existing_name is Some {
                r is None && kept_with_error(*final(form), f, edit_path_error())
            } else {
                match form_error(f) {
                    Some(e) => r is None && kept_with_error(*final(form), f, e),
                    None => single_creation(r, f) && *final(form) is None,
                }
            },
        },
{
    match form {
        None => None,
        Some(f) => {
            if f.existing_name.is_some() {
                f.validation_error = Some(
                    owned("internal error: edit form requires take_saved_search_form_requests"),
                );
                return None;
            }
            match saved_search_form_validation_error(f) {
                Some(error) => {
                    f.validation_error = Some(error);
                    None
                },
                None => {
                    let request = create_request(f);
                    *form = None;
                    Some(request)
                },
            }
        },
    }
}

/// The requests that save the open form: for an edit, the deletion of
/// the saved search under its old name, then the creation; for a new
/// one, the creation. Nothing without a form. A form that does not
/// validate stays open with the reason set as its error; a valid form is
/// closed.
pub fn take_saved_search_form_requests(form: &mut Option<SavedSearchFormState>) -> (r: Option<
    Vec<SavedSearchRequest>,
>)
    ensures
        match *old(form) {
            None => r is None && *final(form) is None,
            Some(f) => match form_error(f) {
                Some(e) => r is None && kept_with_error(*final(form), f, e),
                None => *final(form) is None && match r {
                    Some(reqs) => saving_requests(reqs@, f),
                    None => false,
                },
            },
        },
{
    match form {
        None => None,
        Some(f) => {
            match saved_search_form_validation_error(f) {
                Some(error) => {
                    f.validation_error = Some(error);
                    None
                },
                None => {
                    let mut requests: Vec<SavedSearchRequest> = Vec::new();
                    match &f.existing_name {
                        Some(old_name) => {
                            requests.push(
                                SavedSearchRequest::DeleteSavedSearch { name: old_name.clone() },
                            );
                        },
                        None => {},
                    }
                    requests.push(create_request(f));
                    *form = None;
                    Some(requests)
                },
            }
        },
    }
}

/// A saved search as the sidebar lists it.
pub struct SavedSearch {
    pub name: String,
    pub query: String,
    /// The search mode it runs with, by name.
    pub search_mode: String,
}

/// Whether `r` is what opening the saved search at `index` among
/// `searches` leads to. The index counts from 1; `0` clears the filter
/// and goes back to the inbox, and an index past the end does nothing.
pub open spec fn opens_saved_search(searches: Seq<SavedSearch>, index: int, r: Option<Action>) -> bool {
    if index == 0 {
        r == Some(Action::ClearFilter)
    } else if index <= searches.len() {
        match r {
            Some(Action::SelectSavedSearch(query, mode)) => query@ == searches[index - 1].query@
                && mode@ == searches[index - 1].search_mode@,
            _ => false,
        }
    } else {
        r is None
    }
}

/// The action that opening the saved search at a 1-based index leads
/// to, if any.
pub fn open_saved_search_by_index(searches: &[SavedSearch], index: usize) -> (r: Option<Action>)
    ensures
        opens_saved_search(searches@, index as int, r),
{
    if index == 0 {
        return Some(Action::ClearFilter);
    }
    if index > searches.len() {
        return None;
    }
    let search = &searches[index - 1];
    Some(Action::SelectSavedSearch(owned(search.query.as_str()), owned(search.search_mode.as_str())))
}

} // verus!
