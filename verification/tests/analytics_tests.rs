use mxr_tui::action::AnalyticsView;
use mxr_tui::analytics::{
    analytics_request_at, analytics_request_for_active_view, submit_analytics_filter_modal,
    AnalyticsRequest, apply_filter_modal_fields, filter_modal_for_view, filter_modal_for_view_in_year,
    next_analytics_view, parse_i32, parse_optional_u32, parse_u32, prev_analytics_view,
    select_filter_field, text_filter_field, wrapped_window_request_at, wrapped_window_to_request,
    AnalyticsState, ContactsMode, ResponseTimeDirection, StaleBallInCourt, StorageGroupBy,
    StorageMode, WrappedWindow,
};

fn state(view: AnalyticsView) -> AnalyticsState {
    AnalyticsState {
        view,
        storage_mode: StorageMode::Breakdown,
        storage_group_by: StorageGroupBy::Sender,
        largest_limit: 50,
        largest_since_days: None,
        stale_perspective: StaleBallInCourt::Mine,
        stale_older_than_days: 7,
        stale_within_days: 90,
        contacts_mode: ContactsMode::Asymmetry,
        asymmetry_min_inbound: 3,
        decay_threshold_days: 60,
        decay_max_lookback_days: 365,
        response_time_direction: ResponseTimeDirection::IReplied,
        response_time_counterparty: None,
        response_time_since_days: Some(30),
        subscriptions_limit: 25,
        subscriptions_rank: true,
        wrapped_window: WrappedWindow::Ytd,
        refresh_pending: false,
    }
}

#[test]
fn views_cycle_both_ways() {
    let all = [
        AnalyticsView::Storage,
        AnalyticsView::StaleThreads,
        AnalyticsView::Contacts,
        AnalyticsView::CadenceDrift,
        AnalyticsView::ResponseTime,
        AnalyticsView::Subscriptions,
        AnalyticsView::Wrapped,
    ];
    for (i, v) in all.iter().enumerate() {
        assert_eq!(next_analytics_view(*v), all[(i + 1) % 7]);
        assert_eq!(prev_analytics_view(next_analytics_view(*v)), *v);
    }
}

#[test]
fn number_fields_parse_like_std() {
    assert_eq!(parse_u32(" 42 ", "limit"), Ok(42));
    assert_eq!(parse_u32("+7", "limit"), Ok(7));
    assert_eq!(parse_u32("-1", "limit"), Err("limit must be a non-negative integer".to_string()));
    assert_eq!(parse_u32("4294967296", "limit"), Err("limit must be a non-negative integer".to_string()));
    assert_eq!(parse_optional_u32("  ", "since_days"), Ok(None));
    assert_eq!(parse_optional_u32("12", "since_days"), Ok(Some(12)));
    assert_eq!(parse_optional_u32("x", "since_days"), Err("since_days must be a non-negative integer".to_string()));
    assert_eq!(parse_i32("-2147483648", "year"), Ok(i32::MIN));
    assert_eq!(parse_i32("2147483648", "year"), Err("year must be an integer".to_string()));
}

#[test]
fn field_builders() {
    let t = text_filter_field("limit", "5".to_string());
    assert_eq!(t.label, "limit");
    assert_eq!(t.value, "5");
    assert!(t.options.is_empty());
    let s = select_filter_field("direction", "i_replied".to_string(), &["i_replied", "they_replied"]);
    assert_eq!(s.options, vec!["i_replied", "they_replied"]);
}

#[test]
fn wrapped_modal_shows_window_year_and_days() {
    let mut st = state(AnalyticsView::Wrapped);
    st.wrapped_window = WrappedWindow::SinceDays(45);
    let m = filter_modal_for_view_in_year(&st, 2024);
    let values: Vec<&str> = m.fields.iter().map(|f| f.value.as_str()).collect();
    assert_eq!(values, vec!["since_days", "2024", "45"]);
    assert_eq!(m.active_field, 0);
    assert!(m.validation_error.is_none());
    let m = filter_modal_for_view(&state(AnalyticsView::CadenceDrift));
    assert!(m.fields.is_empty());
}

#[test]
fn modal_round_trips_its_own_values() {
    let mut st = state(AnalyticsView::ResponseTime);
    st.response_time_counterparty = Some("bob@example.com".into());
    let m = filter_modal_for_view_in_year(&st, 2025);
    let mut after = state(AnalyticsView::ResponseTime);
    assert_eq!(apply_filter_modal_fields(&mut after, AnalyticsView::ResponseTime, &m.fields), Ok(()));
    assert_eq!(after.response_time_counterparty.as_deref(), Some("bob@example.com"));
    assert_eq!(after.response_time_since_days, Some(30));
}

#[test]
fn invalid_choice_is_reported_and_leaves_state() {
    let mut st = state(AnalyticsView::Storage);
    let fields = vec![select_filter_field("group_by", " Folder ".into(), &["sender"])];
    assert_eq!(
        apply_filter_modal_fields(&mut st, AnalyticsView::Storage, &fields),
        Err("invalid group_by: folder".to_string())
    );
    assert_eq!(st.storage_group_by, StorageGroupBy::Sender);
    let fields = vec![select_filter_field("group_by", "LABEL".into(), &[])];
    assert_eq!(apply_filter_modal_fields(&mut st, AnalyticsView::Storage, &fields), Ok(()));
    assert_eq!(st.storage_group_by, StorageGroupBy::Label);
}

#[test]
fn wrapped_window_fields_need_valid_numbers() {
    let mut st = state(AnalyticsView::Wrapped);
    let fields = vec![
        text_filter_field("window", "year".into()),
        text_filter_field("year", "20x4".into()),
        text_filter_field("days", "90".into()),
    ];
    assert_eq!(
        apply_filter_modal_fields(&mut st, AnalyticsView::Wrapped, &fields),
        Err("year must be an integer".to_string())
    );
    let fields = vec![
        text_filter_field("window", "Year".into()),
        text_filter_field("year", "2021".into()),
        text_filter_field("days", "90".into()),
    ];
    assert_eq!(apply_filter_modal_fields(&mut st, AnalyticsView::Wrapped, &fields), Ok(()));
    assert_eq!(st.wrapped_window, WrappedWindow::Year(2021));
}

#[test]
fn wrapped_requests_cover_the_window() {
    let now = 1_700_000_000;
    assert_eq!(
        wrapped_window_request_at(WrappedWindow::Year(2023), now),
        (1_672_531_200, 1_704_067_199, "2023".to_string())
    );
    assert_eq!(
        wrapped_window_request_at(WrappedWindow::SinceDays(10), now),
        (now - 864_000, now, "last 10 days".to_string())
    );
    assert_eq!(
        wrapped_window_request_at(WrappedWindow::Ytd, now),
        (1_672_531_200, now, "2023 year-to-date".to_string())
    );
    assert_eq!(
        wrapped_window_request_at(WrappedWindow::Year(2024), now),
        (1_704_067_200, 1_735_689_599, "2024".to_string())
    );
    assert_eq!(
        wrapped_window_request_at(WrappedWindow::Ytd, 1_704_067_200),
        (1_704_067_200, 1_704_067_200, "2024 year-to-date".to_string())
    );
    assert_eq!(
        wrapped_window_request_at(WrappedWindow::Year(-5), now).2,
        "-5"
    );
}

#[test]
fn wrapped_request_from_the_clock() {
    let (start, end, title) = wrapped_window_to_request(WrappedWindow::SinceDays(1)).unwrap();
    assert_eq!(end - start, 86_400);
    assert_eq!(title, "last 1 days");
    assert!(wrapped_window_to_request(WrappedWindow::SinceDays(u32::MAX)).is_none());
    let (_, _, title) = wrapped_window_to_request(WrappedWindow::Ytd).unwrap();
    assert!(title.ends_with(" year-to-date"));
}

#[test]
fn submitting_a_valid_modal_closes_it_and_refreshes() {
    let mut st = state(AnalyticsView::Subscriptions);
    let mut modal = Some(filter_modal_for_view_in_year(&st, 2024));
    modal.as_mut().unwrap().fields[0].value = "10".into();
    submit_analytics_filter_modal(&mut st, &mut modal);
    assert!(modal.is_none());
    assert!(st.refresh_pending);
    assert_eq!(st.subscriptions_limit, 10);
}

#[test]
fn submitting_an_invalid_modal_keeps_it_with_the_error() {
    let mut st = state(AnalyticsView::Subscriptions);
    let mut modal = Some(filter_modal_for_view_in_year(&st, 2024));
    modal.as_mut().unwrap().fields[1].value = "maybe".into();
    modal.as_mut().unwrap().fields[0].value = "11".into();
    submit_analytics_filter_modal(&mut st, &mut modal);
    assert_eq!(modal.unwrap().validation_error.as_deref(), Some("invalid rank: maybe"));
    assert!(!st.refresh_pending);
    assert_eq!(st.subscriptions_limit, 11);
    let mut none = None;
    submit_analytics_filter_modal(&mut st, &mut none);
    assert!(none.is_none());
}

#[test]
fn requests_follow_the_active_view() {
    let mut st = state(AnalyticsView::Storage);
    assert_eq!(
        analytics_request_for_active_view(&st, None),
        Some(AnalyticsRequest::ListStorageBreakdown { group_by: StorageGroupBy::Sender, limit: 100 })
    );
    st.view = AnalyticsView::CadenceDrift;
    assert_eq!(analytics_request_for_active_view(&st, None), None);
    assert_eq!(
        analytics_request_for_active_view(&st, Some(9)),
        Some(AnalyticsRequest::ListCadenceDrift { account_id: 9 })
    );
    st.view = AnalyticsView::ResponseTime;
    st.response_time_counterparty = Some("x@y".into());
    assert_eq!(
        analytics_request_for_active_view(&st, None),
        Some(AnalyticsRequest::ListResponseTime {
            direction: ResponseTimeDirection::IReplied,
            counterparty: Some("x@y".into()),
            since_days: Some(30),
        })
    );
    st.view = AnalyticsView::Wrapped;
    st.wrapped_window = WrappedWindow::Year(2023);
    assert_eq!(
        analytics_request_at(&st, None, 1_700_000_000),
        Some(AnalyticsRequest::Wrapped {
            since_unix: 1_672_531_200,
            until_unix: 1_704_067_199,
            label: "2023".into(),
        })
    );
    st.wrapped_window = WrappedWindow::SinceDays(u32::MAX);
    assert_eq!(analytics_request_for_active_view(&st, None), None);
}
