use mxr_tui::mutation::{apply_provider_label_changes, remove_from_list_effect, MutationEffect};

fn strings(v: &[&str]) -> Vec<String> {
    v.iter().map(|s| s.to_string()).collect()
}

#[test]
fn one_id_gives_the_single_removal() {
    assert!(matches!(remove_from_list_effect(&[7]), MutationEffect::RemoveFromList(7)));
}

#[test]
fn several_ids_give_the_bulk_removal() {
    match remove_from_list_effect(&[1, 2, 3]) {
        MutationEffect::RemoveFromListMany(v) => assert_eq!(v, vec![1, 2, 3]),
        _ => panic!("expected the bulk form"),
    }
    match remove_from_list_effect(&[]) {
        MutationEffect::RemoveFromListMany(v) => assert!(v.is_empty()),
        _ => panic!("expected the bulk form"),
    }
}

#[test]
fn label_changes_remove_then_append_missing() {
    let mut labels = strings(&["INBOX", "UNREAD", "Work"]);
    apply_provider_label_changes(
        &mut labels,
        &strings(&["Archive", "Work", "Archive"]),
        &strings(&["INBOX", "Missing"]),
    );
    assert_eq!(labels, strings(&["UNREAD", "Work", "Archive"]));
}

#[test]
fn label_removed_and_added_stays() {
    let mut labels = strings(&["A", "B"]);
    apply_provider_label_changes(&mut labels, &strings(&["A"]), &strings(&["A"]));
    assert_eq!(labels, strings(&["B", "A"]));
}
