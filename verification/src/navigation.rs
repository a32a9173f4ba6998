//! Moving the cursor through the mail list and the search results, and
//! moving the focus between the panes of the mailbox.
use vstd::prelude::*;
use crate::action::Action;
use crate::screen::Screen;

verus! {

/// Rows the viewport jumps (middle, bottom, centring) assume on screen.
pub const VIEWPORT_JUMP_ROWS: usize = 20;

/// The pane of the mailbox that has the focus.
#[derive(Debug, Clone, Copy, PartialEq, Eq, Structural)]
pub enum ActivePane {
    Sidebar,
    MailList,
    MessageView,
}

/// How the mailbox is laid out.
#[derive(Debug, Clone, Copy, PartialEq, Eq, Structural)]
pub enum LayoutMode {
    TwoPane,
    ThreePane,
    FullScreen,
}

/// The highlighted row of a list and the first row on screen.
#[derive(Debug, Clone, Copy, PartialEq, Eq, Structural)]
pub struct ListCursor {
    pub selected_index: usize,
    pub scroll_offset: usize,
}

/// The pane that takes the focus from `pane` on `SwitchPane`: three panes
/// go round sidebar, list, message; full screen goes between sidebar and
/// message; two panes between sidebar and list.
pub open spec fn pane_after_switch(layout: LayoutMode, pane: ActivePane) -> ActivePane {
    match (layout, pane) {
        (LayoutMode::ThreePane, ActivePane::Sidebar) => ActivePane::MailList,
        (LayoutMode::ThreePane, ActivePane::MailList) => ActivePane::MessageView,
        (LayoutMode::ThreePane, ActivePane::MessageView) => ActivePane::Sidebar,
        (LayoutMode::FullScreen, ActivePane::Sidebar) => ActivePane::MessageView,
        (LayoutMode::FullScreen, ActivePane::MessageView) => ActivePane::Sidebar,
        (_, ActivePane::Sidebar) => ActivePane::MailList,
        (_, _) => ActivePane::Sidebar,
    }
}

/// The pane that takes the focus on `SwitchPane`.
pub fn switch_pane(layout: LayoutMode, pane: ActivePane) -> (r: ActivePane)
    ensures
        r == pane_after_switch(layout, pane),
{
    match (layout, pane) {
        (LayoutMode::ThreePane, ActivePane::Sidebar) => ActivePane::MailList,
        (LayoutMode::ThreePane, ActivePane::MailList) => ActivePane::MessageView,
        (LayoutMode::ThreePane, ActivePane::MessageView) => ActivePane::Sidebar,
        (LayoutMode::FullScreen, ActivePane::Sidebar) => ActivePane::MessageView,
        (LayoutMode::FullScreen, ActivePane::MessageView) => ActivePane::Sidebar,
        (_, ActivePane::Sidebar) => ActivePane::MailList,
        (_, _) => ActivePane::Sidebar,
    }
}

/// Rows moved by a page: the visible height, at least one.
pub open spec fn page_rows(height: int) -> int {
    if height < 1 {
        1
    } else {
        height
    }
}

pub open spec fn floor_sub(x: int, d: int) -> int {
    if x < d {
        0
    } else {
        x - d
    }
}

pub open spec fn min_int(a: int, b: int) -> int {
    if a < b {
        a
    } else {
        b
    }
}

/// The index of the last of `rows` rows, zero for none.
pub open spec fn last_row(rows: int) -> int {
    floor_sub(rows, 1)
}

/// The first row on screen once the list has scrolled just enough to
/// show the row `selected`.
pub open spec fn scroll_to_show(selected: int, scroll: int, height: int) -> int {
    if selected < scroll {
        selected
    } else if selected >= scroll + page_rows(height) {
        selected + 1 - page_rows(height)
    } else {
        scroll
    }
}

/// Whether an action moves the mail list cursor.
pub open spec fn is_cursor_action(a: Action) -> bool {
    match a {
        Action::MoveDown | Action::MoveUp | Action::JumpTop | Action::JumpBottom
        | Action::PageDown | Action::PageUp | Action::ViewportTop | Action::ViewportMiddle
        | Action::ViewportBottom | Action::CenterCurrent => true,
        _ => false,
    }
}

/// The highlighted row of the mail list after a cursor action, with
/// `rows` rows in the list.
pub open spec fn selected_after(a: Action, sel: int, scroll: int, rows: int, height: int) -> int {
    match a {
        Action::MoveDown => if sel + 1 < rows {
            sel + 1
        } else {
            sel
        },
        Action::MoveUp => if sel > 0 {
            sel - 1
        } else {
            sel
        },
        Action::JumpTop => 0,
        Action::JumpBottom => if rows > 0 {
            rows - 1
        } else {
            sel
        },
        Action::PageDown => min_int(sel + page_rows(height), last_row(rows)),
        Action::PageUp => floor_sub(sel, page_rows(height)),
        Action::ViewportTop => scroll,
        Action::ViewportMiddle => min_int(scroll + VIEWPORT_JUMP_ROWS / 2, last_row(rows)),
        Action::ViewportBottom => min_int(scroll + VIEWPORT_JUMP_ROWS, last_row(rows)),
        _ => sel,
    }
}

/// The first row on screen after a cursor action: the moves that keep
/// the cursor in view scroll just enough to show it; `JumpTop` goes back
/// to the top; `CenterCurrent` puts the cursor half a viewport down.
pub open spec fn scroll_after(a: Action, sel: int, scroll: int, rows: int, height: int) -> int {
    let next = selected_after(a, sel, scroll, rows, height);
    match a {
        Action::MoveDown | Action::MoveUp | Action::JumpBottom | Action::PageDown
        | Action::PageUp => scroll_to_show(next, scroll, height),
        Action::JumpTop => 0,
        Action::CenterCurrent => floor_sub(sel, (VIEWPORT_JUMP_ROWS / 2) as int),
        _ => scroll,
    }
}

fn sub_or_zero(x: usize, d: usize) -> (r: usize)
    ensures
        r == floor_sub(x as int, d as int),
{
    if x < d {
        0
    } else {
        x - d
    }
}

/// `x + d`, held to `cap`.
fn add_capped(x: usize, d: usize, cap: usize) -> (r: usize)
    ensures
        r == min_int(x + d, cap as int),
{
    if x >= cap || cap - x <= d {
        cap
    } else {
        x + d
    }
}

fn page_of(height: usize) -> (r: usize)
    ensures
        r == page_rows(height as int),
        r >= 1,
{
    if height < 1 {
        1
    } else {
        height
    }
}

pub(crate) fn show_row(selected: usize, scroll: usize, height: usize) -> (r: usize)
    ensures
        r == scroll_to_show(selected as int, scroll as int, height as int),
{
    let h = page_of(height);
    if selected < scroll {
        selected
    } else if selected - scroll >= h {
        selected - h + 1
    } else {
        scroll
    }
}

/// Applies a cursor action to the mail list cursor, with `rows` rows in
/// the list and `visible_height` rows on screen. Returns whether the
/// action was one; other actions leave the cursor alone.
pub fn move_mail_cursor(cursor: &mut ListCursor, action: &Action, rows: usize, visible_height: usize) -> (moved:
    bool)
    ensures
        moved == is_cursor_action(*action),
        moved ==> final(cursor).selected_index == selected_after(
            *action,
            old(cursor).selected_index as int,
            old(cursor).scroll_offset as int,
            rows as int,
            visible_height as int,
        ),
        moved ==> final(cursor).scroll_offset == scroll_after(
            *action,
            old(cursor).selected_index as int,
            old(cursor).scroll_offset as int,
            rows as int,
            visible_height as int,
        ),
        !moved ==> *final(cursor) == *old(cursor),
{
    let sel = cursor.selected_index;
    let scroll = cursor.scroll_offset;
    let last = sub_or_zero(rows, 1);
    let page = page_of(visible_height);
    match action {
        Action::MoveDown => {
            let next = if sel < last && rows > 0 {
                sel + 1
            } else {
                sel
            };
            cursor.selected_index = next;
            cursor.scroll_offset = show_row(next, scroll, visible_height);
        },
        Action::MoveUp => {
            let next = if sel > 0 {
                sel - 1
            } else {
                sel
            };
            cursor.selected_index = next;
            cursor.scroll_offset = show_row(next, scroll, visible_height);
        },
        Action::JumpTop => {
            cursor.selected_index = 0;
            cursor.scroll_offset = 0;
        },
        Action::JumpBottom => {
            let next = if rows > 0 {
                rows - 1
            } else {
                sel
            };
            cursor.selected_index = next;
            cursor.scroll_offset = show_row(next, scroll, visible_height);
        },
        Action::PageDown => {
            let next = add_capped(sel, page, last);
            cursor.selected_index = next;
            cursor.scroll_offset = show_row(next, scroll, visible_height);
        },
        Action::PageUp => {
            let next = sub_or_zero(sel, page);
            cursor.selected_index = next;
            cursor.scroll_offset = show_row(next, scroll, visible_height);
        },
        Action::ViewportTop => {
            cursor.selected_index = scroll;
        },
        Action::ViewportMiddle => {
            cursor.selected_index = add_capped(scroll, VIEWPORT_JUMP_ROWS / 2, last);
        },
        Action::ViewportBottom => {
            cursor.selected_index = add_capped(scroll, VIEWPORT_JUMP_ROWS, last);
        },
        Action::CenterCurrent => {
            cursor.scroll_offset = sub_or_zero(sel, VIEWPORT_JUMP_ROWS / 2);
        },
        _ => {
            return false;
        },
    }
    true
}

/// A move, jump or page keeps the highlighted row on screen.
pub proof fn law_moves_keep_cursor_on_screen(
    a: Action,
    sel: int,
    scroll: int,
    rows: int,
    height: int,
)
    requires
        a is MoveDown || a is MoveUp || a is JumpTop || a is JumpBottom || a is PageDown
            || a is PageUp,
        0 <= sel,
        0 <= scroll,
    ensures
        scroll_after(a, sel, scroll, rows, height) <= selected_after(a, sel, scroll, rows, height)
            < scroll_after(a, sel, scroll, rows, height) + page_rows(height),
{
}

/// In a list that has rows, every cursor action but `ViewportTop` leaves
/// the highlight on one of them.
pub proof fn law_cursor_stays_in_list(a: Action, sel: int, scroll: int, rows: int, height: int)
    requires
        is_cursor_action(a),
        !(a is ViewportTop),
        0 <= sel < rows,
        0 <= scroll,
    ensures
        0 <= selected_after(a, sel, scroll, rows, height) < rows,
{
}

/// What a cursor action does on the search screen.
pub enum SearchCursorMove {
    /// The action does not move the cursor.
    NotACursorAction,
    /// The highlight moved to this row, or stayed.
    Moved,
    /// `JumpBottom` while more results can be loaded: load them all first.
    LoadToEnd,
}

/// The highlighted search result after a cursor action, with `rows`
/// results loaded.
pub open spec fn search_selected_after(a: Action, sel: int, rows: int, height: int) -> int {
    match a {
        Action::MoveDown => if sel + 1 < rows {
            sel + 1
        } else {
            sel
        },
        Action::MoveUp => if sel > 0 {
            sel - 1
        } else {
            sel
        },
        Action::JumpTop => 0,
        Action::JumpBottom => if rows > 0 {
            rows - 1
        } else {
            sel
        },
        Action::PageDown => min_int(sel + page_rows(height), last_row(rows)),
        Action::PageUp => floor_sub(sel, page_rows(height)),
        _ => sel,
    }
}

/// Applies a cursor action on the search screen: moves, jumps and pages
/// move the highlight; `JumpBottom` asks for the remaining results when
/// more can be loaded.
pub fn move_search_cursor(
    selected: &mut usize,
    action: &Action,
    rows: usize,
    visible_height: usize,
    has_more: bool,
) -> (r: SearchCursorMove)
    ensures
        (action is MoveDown || action is MoveUp || action is JumpTop || action is JumpBottom
            || action is PageDown || action is PageUp) <==> !(r is NotACursorAction),
        r is LoadToEnd <==> (action is JumpBottom && has_more),
        (r is Moved) ==> *final(selected) == search_selected_after(
            *action,
            *old(selected) as int,
            rows as int,
            visible_height as int,
        ),
        !(r is Moved) ==> *final(selected) == *old(selected),
{
    let sel = *selected;
    let last = sub_or_zero(rows, 1);
    let page = page_of(visible_height);
    match action {
        Action::MoveDown => {
            if sel < last && rows > 0 {
                *selected = sel + 1;
            }
        },
        Action::MoveUp => {
            if sel > 0 {
                *selected = sel - 1;
            }
        },
        Action::JumpTop => {
            *selected = 0;
        },
        Action::JumpBottom => {
            if has_more {
                return SearchCursorMove::LoadToEnd;
            }
            if rows > 0 {
                *selected = rows - 1;
            }
        },
        Action::PageDown => {
            *selected = add_capped(sel, page, last);
        },
        Action::PageUp => {
            *selected = sub_or_zero(sel, page);
        },
        _ => {
            return SearchCursorMove::NotACursorAction;
        },
    }
    SearchCursorMove::Moved
}

/// What `Back` leads to.
pub enum BackStep {
    /// Another screen is showing: go back to the mailbox.
    ToMailboxScreen,
    /// Apply this action next.
    Then(Action),
    /// Nothing to go back from.
    Stay,
}

/// What `Back` leads to: off the mailbox it returns to the mailbox; in
/// the message it closes the message; in the list it undoes the nearest
/// of a selection, a search, a label filter and an open message pane.
pub open spec fn back_step_spec(
    screen: Screen,
    pane: ActivePane,
    has_selection: bool,
    search_active: bool,
    label_active: bool,
    layout: LayoutMode,
) -> BackStep {
    if screen != Screen::Mailbox {
        BackStep::ToMailboxScreen
    } else {
        match pane {
            ActivePane::MessageView => BackStep::Then(Action::CloseMessageView),
            ActivePane::MailList => if has_selection {
                BackStep::Then(Action::ClearSelection)
            } else if search_active {
                BackStep::Then(Action::CloseSearch)
            } else if label_active {
                BackStep::Then(Action::ClearFilter)
            } else if layout == LayoutMode::ThreePane {
                BackStep::Then(Action::CloseMessageView)
            } else {
                BackStep::Stay
            },
            ActivePane::Sidebar => BackStep::Stay,
        }
    }
}

/// What `Back` leads to in the given state of the mailbox.
pub fn back_step(
    screen: Screen,
    pane: ActivePane,
    has_selection: bool,
    search_active: bool,
    label_active: bool,
    layout: LayoutMode,
) -> (r: BackStep)
    ensures
        r == back_step_spec(screen, pane, has_selection, search_active, label_active, layout),
{
    if screen != Screen::Mailbox {
        return BackStep::ToMailboxScreen;
    }
    match pane {
        ActivePane::MessageView => BackStep::Then(Action::CloseMessageView),
        ActivePane::MailList => {
            if has_selection {
                BackStep::Then(Action::ClearSelection)
            } else if search_active {
                BackStep::Then(Action::CloseSearch)
            } else if label_active {
                BackStep::Then(Action::ClearFilter)
            } else if layout == LayoutMode::ThreePane {
                BackStep::Then(Action::CloseMessageView)
            } else {
                BackStep::Stay
            }
        },
        ActivePane::Sidebar => BackStep::Stay,
    }
}

/// What `OpenSelected` does.
pub enum OpenSelectedStep {
    /// Carry out the bulk action waiting for confirmation.
    ConfirmBulk,
    /// Open the highlighted search result.
    OpenSearchResult,
    /// Open the newest message of the highlighted subscription, in three
    /// panes with the message focused.
    OpenSubscription,
    /// Open the highlighted row's message, in three panes with the
    /// message focused.
    OpenRow,
    /// Nothing is highlighted.
    Nothing,
}

/// What `OpenSelected` does: a bulk action waiting for confirmation goes
/// first, then the search screen, then the subscriptions view, then the
/// mail list.
pub open spec fn open_selected_spec(
    bulk_pending: bool,
    screen: Screen,
    subscriptions_view: bool,
    has_subscription: bool,
    has_row: bool,
) -> OpenSelectedStep {
    if bulk_pending {
        OpenSelectedStep::ConfirmBulk
    } else if screen == Screen::Search {
        OpenSelectedStep::OpenSearchResult
    } else if subscriptions_view {
        if has_subscription {
            OpenSelectedStep::OpenSubscription
        } else {
            OpenSelectedStep::Nothing
        }
    } else if has_row {
        OpenSelectedStep::OpenRow
    } else {
        OpenSelectedStep::Nothing
    }
}

/// What `OpenSelected` does in the given state.
pub fn open_selected_step(
    bulk_pending: bool,
    screen: Screen,
    subscriptions_view: bool,
    has_subscription: bool,
    has_row: bool,
) -> (r: OpenSelectedStep)
    ensures
        r == open_selected_spec(bulk_pending, screen, subscriptions_view, has_subscription, has_row),
{
    if bulk_pending {
        OpenSelectedStep::ConfirmBulk
    } else if screen == Screen::Search {
        OpenSelectedStep::OpenSearchResult
    } else if subscriptions_view {
        if has_subscription {
            OpenSelectedStep::OpenSubscription
        } else {
            OpenSelectedStep::Nothing
        }
    } else if has_row {
        OpenSelectedStep::OpenRow
    } else {
        OpenSelectedStep::Nothing
    }
}

/// `MoveUp` highlights the row above, and stays on the first row;
/// `MoveDown` highlights the row below, and stays on the last row.
pub proof fn law_moves_step_one_row(sel: int, scroll: int, rows: int, height: int)
    requires
        0 <= sel < rows,
    ensures
        sel > 0 ==> selected_after(Action::MoveUp, sel, scroll, rows, height) == sel - 1,
        sel == 0 ==> selected_after(Action::MoveUp, sel, scroll, rows, height) == 0,
        sel + 1 < rows ==> selected_after(Action::MoveDown, sel, scroll, rows, height) == sel + 1,
        sel + 1 == rows ==> selected_after(Action::MoveDown, sel, scroll, rows, height) == sel,
        sel > 0 ==> search_selected_after(Action::MoveUp, sel, rows, height) == sel - 1,
        sel + 1 < rows ==> search_selected_after(Action::MoveDown, sel, rows, height) == sel + 1,
{
}

/// Down then up (and up then down) comes back to the same row, wherever
/// the list has scrolled to in between.
pub proof fn law_down_then_up_returns(sel: int, scroll: int, scroll2: int, rows: int, height: int)
    requires
        0 <= sel,
        sel + 1 < rows,
    ensures
        selected_after(
            Action::MoveUp,
            selected_after(Action::MoveDown, sel, scroll, rows, height),
            scroll2,
            rows,
            height,
        ) == sel,
        selected_after(
            Action::MoveDown,
            selected_after(Action::MoveUp, sel + 1, scroll, rows, height),
            scroll2,
            rows,
            height,
        ) == sel + 1,
{
}

/// The jumps go to the ends of the list; a page moves by the visible
/// height (at least one row), stopping at the ends.
pub proof fn law_jumps_and_pages(sel: int, scroll: int, rows: int, height: int)
    requires
        0 <= sel < rows,
        0 <= scroll,
    ensures
        selected_after(Action::JumpTop, sel, scroll, rows, height) == 0,
        scroll_after(Action::JumpTop, sel, scroll, rows, height) == 0,
        selected_after(Action::JumpBottom, sel, scroll, rows, height) == rows - 1,
        ({
            let p = if height < 1 { 1 } else { height };
            &&& sel + p <= rows - 1 ==> selected_after(Action::PageDown, sel, scroll, rows, height) == sel + p
            &&& sel + p > rows - 1 ==> selected_after(Action::PageDown, sel, scroll, rows, height) == rows - 1
            &&& sel >= p ==> selected_after(Action::PageUp, sel, scroll, rows, height) == sel - p
            &&& sel < p ==> selected_after(Action::PageUp, sel, scroll, rows, height) == 0
        }),
        selected_after(Action::ViewportTop, sel, scroll, rows, height) == scroll,
{
}

/// Moving the highlight one row keeps the list still while the new row is
/// on screen, and otherwise scrolls it by exactly that row.
pub proof fn law_one_row_scrolls_at_most_one(sel: int, scroll: int, rows: int, height: int)
    requires
        0 <= scroll <= sel,
        sel < scroll + (if height < 1 { 1 } else { height }),
        sel < rows,
    ensures
        ({
            let s2 = scroll_after(Action::MoveDown, sel, scroll, rows, height);
            s2 == scroll || s2 == scroll + 1
        }),
        ({
            let s2 = scroll_after(Action::MoveUp, sel, scroll, rows, height);
            s2 == scroll || s2 == scroll - 1
        }),
{
}

/// The viewport jumps land half a viewport (ten rows) and a full one
/// (twenty rows) below the top of the screen, held to the list;
/// `CenterCurrent` scrolls the highlight to ten rows below the top, or
/// to the top of the list when it is nearer.
pub proof fn law_viewport_jumps(sel: int, scroll: int, rows: int, height: int)
    requires
        0 <= sel < rows,
        0 <= scroll,
    ensures
        scroll + 10 <= rows - 1 ==> selected_after(Action::ViewportMiddle, sel, scroll, rows, height)
            == scroll + 10,
        scroll + 10 > rows - 1 ==> selected_after(Action::ViewportMiddle, sel, scroll, rows, height)
            == rows - 1,
        scroll + 20 <= rows - 1 ==> selected_after(Action::ViewportBottom, sel, scroll, rows, height)
            == scroll + 20,
        scroll + 20 > rows - 1 ==> selected_after(Action::ViewportBottom, sel, scroll, rows, height)
            == rows - 1,
        sel >= 10 ==> scroll_after(Action::CenterCurrent, sel, scroll, rows, height) == sel - 10,
        sel < 10 ==> scroll_after(Action::CenterCurrent, sel, scroll, rows, height) == 0,
        selected_after(Action::CenterCurrent, sel, scroll, rows, height) == sel,
        scroll_after(Action::ViewportTop, sel, scroll, rows, height) == scroll,
{
}

/// On the search screen the jumps go to the ends of the results and a
/// page moves by the visible height (at least one), stopping at the ends.
pub proof fn law_search_jumps_and_pages(sel: int, rows: int, height: int)
    requires
        0 <= sel < rows,
    ensures
        search_selected_after(Action::JumpTop, sel, rows, height) == 0,
        search_selected_after(Action::JumpBottom, sel, rows, height) == rows - 1,
        sel == 0 ==> search_selected_after(Action::MoveUp, sel, rows, height) == 0,
        sel + 1 == rows ==> search_selected_after(Action::MoveDown, sel, rows, height) == sel,
        ({
            let p = if height < 1 { 1 } else { height };
            &&& sel + p <= rows - 1 ==> search_selected_after(Action::PageDown, sel, rows, height) == sel + p
            &&& sel + p > rows - 1 ==> search_selected_after(Action::PageDown, sel, rows, height) == rows - 1
            &&& sel >= p ==> search_selected_after(Action::PageUp, sel, rows, height) == sel - p
            &&& sel < p ==> search_selected_after(Action::PageUp, sel, rows, height) == 0
        }),
{
}

/// `SwitchPane` goes round all three panes in three steps in the
/// three-pane layout, and swaps two panes back and forth otherwise: the
/// sidebar and the list in two panes, the sidebar and the message in full
/// screen.
pub proof fn law_switch_pane_cycles(p: ActivePane)
    ensures
        pane_after_switch(
            LayoutMode::ThreePane,
            pane_after_switch(LayoutMode::ThreePane, pane_after_switch(LayoutMode::ThreePane, p)),
        ) == p,
        pane_after_switch(LayoutMode::ThreePane, p) != p,
        pane_after_switch(LayoutMode::TwoPane, ActivePane::Sidebar) == ActivePane::MailList,
        pane_after_switch(LayoutMode::TwoPane, ActivePane::MailList) == ActivePane::Sidebar,
        pane_after_switch(LayoutMode::FullScreen, ActivePane::Sidebar) == ActivePane::MessageView,
        pane_after_switch(LayoutMode::FullScreen, ActivePane::MessageView) == ActivePane::Sidebar,
        p != ActivePane::Sidebar ==> pane_after_switch(LayoutMode::TwoPane, p) == ActivePane::Sidebar,
{
}

/// `Back` off the mailbox returns to it; in the list it undoes the
/// nearest thing first: a selection before a search, a search before a
/// label filter; from the message it closes the message; in the sidebar
/// it does nothing.
pub proof fn law_back_undoes_nearest(
    pane: ActivePane,
    has_selection: bool,
    search_active: bool,
    label_active: bool,
    layout: LayoutMode,
)
    ensures
        back_step_spec(Screen::Search, pane, has_selection, search_active, label_active, layout)
            is ToMailboxScreen,
        has_selection ==> back_step_spec(
            Screen::Mailbox,
            ActivePane::MailList,
            has_selection,
            search_active,
            label_active,
            layout,
        ) == BackStep::Then(Action::ClearSelection),
        !has_selection && search_active ==> back_step_spec(
            Screen::Mailbox,
            ActivePane::MailList,
            has_selection,
            search_active,
            label_active,
            layout,
        ) == BackStep::Then(Action::CloseSearch),
        !has_selection && !search_active && label_active ==> back_step_spec(
            Screen::Mailbox,
            ActivePane::MailList,
            has_selection,
            search_active,
            label_active,
            layout,
        ) == BackStep::Then(Action::ClearFilter),
        back_step_spec(Screen::Mailbox, ActivePane::MessageView, has_selection, search_active, label_active, layout)
            == BackStep::Then(Action::CloseMessageView),
        back_step_spec(Screen::Mailbox, ActivePane::Sidebar, has_selection, search_active, label_active, layout)
            is Stay,
{
}

} // verus!
