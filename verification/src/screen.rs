//! The top-level screens and their tab strip, and the fixed presets of
//! the snooze and save-attachment pickers.
use vstd::prelude::*;
use crate::text::str_eq;

verus! {

/// The top-level screens, one tab each.
#[derive(Debug, Clone, Copy, PartialEq, Eq, Structural)]
pub enum Screen {
    Mailbox,
    Search,
    Rules,
    Diagnostics,
    Accounts,
    Analytics,
}

/// Tab titles, each with the number key that opens it.
pub open spec fn tab_title(i: int) -> Seq<char> {
    if i == 0 {
        "1 Mailbox"@
    } else if i == 1 {
        "2 Search"@
    } else if i == 2 {
        "3 Rules"@
    } else if i == 3 {
        "4 Accounts"@
    } else if i == 4 {
        "5 Diagnostics"@
    } else {
        "6 Analytics"@
    }
}

/// The tab that shows a screen.
pub open spec fn tab_of(s: Screen) -> nat {
    match s {
        Screen::Mailbox => 0,
        Screen::Search => 1,
        Screen::Rules => 2,
        Screen::Accounts => 3,
        Screen::Diagnostics => 4,
        Screen::Analytics => 5,
    }
}

/// The titles of the tab strip, left to right.
pub fn tab_titles() -> (t: [&'static str; 6])
    ensures
        forall|i: int| 0 <= i < 6 ==> (#[trigger] t@[i])@ == tab_title(i),
{
    let t = ["1 Mailbox", "2 Search", "3 Rules", "4 Accounts", "5 Diagnostics", "6 Analytics"];
    assert forall|i: int| 0 <= i < 6 implies (#[trigger] t@[i])@ == tab_title(i) by {
        if i == 0 {
        } else if i == 1 {
        } else if i == 2 {
        } else if i == 3 {
        } else if i == 4 {
        } else {
        }
    }
    t
}

/// Index of the tab that is highlighted while `screen` is shown.
pub fn selected_tab(screen: Screen) -> (i: usize)
    ensures
        i == tab_of(screen),
{
    match screen {
        Screen::Mailbox => 0,
        Screen::Search => 1,
        Screen::Rules => 2,
        Screen::Accounts => 3,
        Screen::Diagnostics => 4,
        Screen::Analytics => 5,
    }
}

/// Each screen has a tab of its own, and every tab belongs to a screen.
pub proof fn law_tabs_match_screens(a: Screen, b: Screen)
    ensures
        tab_of(a) < 6,
        tab_of(a) == tab_of(b) ==> a == b,
{
}

/// Directories offered by the save-attachment picker.
#[derive(Debug, Clone, Copy, PartialEq, Eq, Structural)]
pub enum SavePathPreset {
    Downloads,
    Desktop,
    Cwd,
}

/// Moments offered by the snooze picker.
#[derive(Debug, Clone, Copy, PartialEq, Eq, Structural)]
pub enum SnoozePreset {
    TomorrowMorning,
    Tonight,
    Weekend,
    NextMonday,
}

/// The snooze picker's choices, top to bottom.
pub fn snooze_presets() -> (p: [SnoozePreset; 4])
    ensures
        p@ == seq![
            SnoozePreset::TomorrowMorning,
            SnoozePreset::Tonight,
            SnoozePreset::Weekend,
            SnoozePreset::NextMonday,
        ],
{
    let p = [
        SnoozePreset::TomorrowMorning,
        SnoozePreset::Tonight,
        SnoozePreset::Weekend,
        SnoozePreset::NextMonday,
    ];
    assert(p@ =~= seq![
        SnoozePreset::TomorrowMorning,
        SnoozePreset::Tonight,
        SnoozePreset::Weekend,
        SnoozePreset::NextMonday,
    ]);
    p
}

/// The hours and the day the snooze presets wake at.
pub struct SnoozeConfig {
    pub morning_hour: u8,
    pub evening_hour: u8,
    /// `"sunday"` for Sunday; any other name means Saturday.
    pub weekend_day: String,
    pub weekend_hour: u8,
}

/// Days from the weekday `today` to the next weekday `target` (both
/// counted from Monday as 0), a full week when they are the same day.
pub open spec fn days_until_next(target: int, today: int) -> int {
    let d = (target - today + 7) % 7;
    if d == 0 {
        7
    } else {
        d
    }
}

/// The weekday (from Monday as 0) the weekend preset wakes on.
pub open spec fn weekend_weekday(weekend_day: Seq<char>) -> int {
    if weekend_day == "sunday"@ {
        6
    } else {
        5
    }
}

/// When a preset wakes, as days from today's local date and the local
/// hour on that day. Today's weekday counts from Monday as 0; `tonight_passed`
/// says whether this evening's hour has gone by, which moves `Tonight` a
/// day on.
pub open spec fn snooze_wake(
    preset: SnoozePreset,
    config: SnoozeConfig,
    today: int,
    tonight_passed: bool,
) -> (int, int) {
    match preset {
        SnoozePreset::TomorrowMorning => (1, config.morning_hour as int),
        SnoozePreset::Tonight => (if tonight_passed {
            1
        } else {
            0
        }, config.evening_hour as int),
        SnoozePreset::Weekend => (
            days_until_next(weekend_weekday(config.weekend_day@), today),
            config.weekend_hour as int,
        ),
        SnoozePreset::NextMonday => (days_until_next(0, today), config.morning_hour as int),
    }
}

fn days_until(target: u32, today: u32) -> (r: u32)
    requires
        target < 7,
        today < 7,
    ensures
        r == days_until_next(target as int, today as int),
        1 <= r <= 7,
{
    let d = (target + 7 - today) % 7;
    if d == 0 {
        7
    } else {
        d
    }
}

/// When a snooze preset wakes: days from today's local date and the
/// local hour. `today_weekday` counts from Monday as 0.
pub fn snooze_wake_plan(
    preset: SnoozePreset,
    config: &SnoozeConfig,
    today_weekday: u32,
    tonight_passed: bool,
) -> (r: (u32, u8))
    requires
        today_weekday < 7,
    ensures
        (r.0 as int, r.1 as int) == snooze_wake(preset, *config, today_weekday as int, tonight_passed),
{
    match preset {
        SnoozePreset::TomorrowMorning => (1, config.morning_hour),
        SnoozePreset::Tonight => (if tonight_passed {
            1
        } else {
            0
        }, config.evening_hour),
        SnoozePreset::Weekend => {
            let target: u32 = if str_eq(config.weekend_day.as_str(), "sunday") {
                6
            } else {
                5
            };
            proof {
                reveal_strlit("sunday");
            }
            (days_until(target, today_weekday), config.weekend_hour)
        },
        SnoozePreset::NextMonday => (days_until(0, today_weekday), config.morning_hour),
    }
}

/// Every preset wakes on a later day than today, except `Tonight` before
/// the evening hour has gone by, which wakes at that hour today; the
/// weekly presets wake within a week.
pub proof fn law_snooze_wakes_later(
    preset: SnoozePreset,
    config: SnoozeConfig,
    today: int,
    tonight_passed: bool,
)
    requires
        0 <= today < 7,
    ensures
        snooze_wake(preset, config, today, tonight_passed).0 >= 1 || (preset == SnoozePreset::Tonight
            && !tonight_passed),
        snooze_wake(preset, config, today, tonight_passed).0 <= 7,
{
}

} // verus!
