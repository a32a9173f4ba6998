use mxr_tui::screen::{selected_tab, snooze_presets, tab_titles, Screen, SnoozePreset};

#[test]
fn tab_titles_include_numeric_shortcuts() {
    assert_eq!(
        tab_titles(),
        ["1 Mailbox", "2 Search", "3 Rules", "4 Accounts", "5 Diagnostics", "6 Analytics",]
    );
}

#[test]
fn selected_tab_maps_each_screen_to_its_tab_index() {
    assert_eq!(selected_tab(Screen::Mailbox), 0);
    assert_eq!(selected_tab(Screen::Search), 1);
    assert_eq!(selected_tab(Screen::Rules), 2);
    assert_eq!(selected_tab(Screen::Accounts), 3);
    assert_eq!(selected_tab(Screen::Diagnostics), 4);
    assert_eq!(selected_tab(Screen::Analytics), 5);
}

#[test]
fn selected_tab_title_names_the_screen() {
    let titles = tab_titles();
    assert!(titles[selected_tab(Screen::Analytics)].ends_with("Analytics"));
    assert!(titles[selected_tab(Screen::Accounts)].ends_with("Accounts"));
}

#[test]
fn snooze_presets_are_listed_in_order() {
    assert_eq!(
        snooze_presets(),
        [
            SnoozePreset::TomorrowMorning,
            SnoozePreset::Tonight,
            SnoozePreset::Weekend,
            SnoozePreset::NextMonday
        ]
    );
}
