use shkolo::app::{App, ClickResult, DragTarget, Focus, MessageView, StudentData, Tab};
use shkolo::cache::{age_text_between, CacheStore, CachedData};
use shkolo::clock::shift_iso_date;
use shkolo::history::{Location, NavHistory};
use shkolo::models::{Homework, HomeworkCourse, HomeworkItem, MessageThread, Notification, Student};
use shkolo::sync::{assemble_homework, homework_courses, settle, should_refresh};
use shkolo::text::{compare_text, decimal_text, padded_text, parse_i64, parse_u32, split_three};

fn student(id: i64, name: &str) -> StudentData {
    StudentData::new(Student { id, name: name.to_string(), class_name: None, school_name: None })
}

fn item(id: i64, date: &str) -> HomeworkItem {
    HomeworkItem {
        id: Some(id),
        homework_text: Some(format!("task {}", id)),
        homework_due_date: None,
        shi_date: None,
        shi_date_for_sort: Some(date.to_string()),
    }
}

#[test]
fn set_tab_makes_tab_current_and_enables_back() {
    let mut app = App::new();
    app.set_tab(Tab::Grades);
    assert_eq!(app.current_tab, Tab::Grades);
    assert!(app.can_go_back());
    let mut same = App::new();
    same.set_tab(Tab::Overview);
    assert_eq!(same.current_tab, Tab::Overview);
    assert!(!same.can_go_back());
}

#[test]
fn back_then_forward_restores_location() {
    let mut app = App::new();
    app.set_tab(Tab::Homework);
    app.set_tab(Tab::Absences);
    let before = (app.current_tab, app.message_view, app.selected_thread_id);
    assert!(app.go_back());
    assert!(app.go_forward());
    assert_eq!((app.current_tab, app.message_view, app.selected_thread_id), before);
}

#[test]
fn history_scenario_truncates_forward_entries() {
    let mut app = App::new();
    app.set_tab(Tab::Homework);
    app.set_tab(Tab::Grades);
    assert_eq!(app.nav_history.index(), 2);
    app.go_back();
    assert_eq!(app.nav_history.index(), 1);
    assert_eq!(app.current_tab, Tab::Homework);
    assert!(app.can_go_forward());
    app.set_tab(Tab::Schedule);
    assert_eq!(app.nav_history.len(), 3);
    assert_eq!(app.nav_history.current().tab, Tab::Schedule);
    assert!(!app.can_go_forward());
}

#[test]
fn pushing_same_location_twice_keeps_length() {
    let loc = Location { tab: Tab::Grades, message_view: MessageView::List, selected_thread_id: None };
    let mut h = NavHistory::new(Location { tab: Tab::Overview, message_view: MessageView::List, selected_thread_id: None });
    h.push(loc);
    let n = h.len();
    h.push(loc);
    assert_eq!(h.len(), n);
    assert_eq!(n, 2);
}

#[test]
fn history_is_capped_at_fifty() {
    let mut app = App::new();
    for i in 0..120 {
        let t = if i % 2 == 0 { Tab::Homework } else { Tab::Grades };
        app.set_tab(t);
    }
    assert_eq!(app.nav_history.len(), 50);
    assert_eq!(app.nav_history.index(), 49);
}

#[test]
fn scrolling_stays_within_list() {
    let mut app = App::new();
    app.current_tab = Tab::Notifications;
    app.focus = Focus::Content;
    app.scroll_down();
    assert_eq!(app.list_offset, 0);
    app.scroll_up();
    assert_eq!(app.list_offset, 0);
    app.notifications = vec![
        Notification { id: None, title: "a".into(), body: None, date: "".into(), is_read: false, notification_type: None, pupil_names: None },
        Notification { id: None, title: "b".into(), body: None, date: "".into(), is_read: false, notification_type: None, pupil_names: None },
    ];
    app.scroll_down();
    app.scroll_down();
    app.scroll_down();
    assert_eq!(app.list_offset, 1);
}

#[test]
fn overview_panes_scroll_independently() {
    let mut app = App::new();
    let mut s = student(1, "A");
    s.grades = vec![];
    s.homework = vec![
        Homework { id: None, subject: "M".into(), text: "".into(), date: "".into(), due_date: None, date_sort: None, due_date_sort: None },
        Homework { id: None, subject: "M".into(), text: "".into(), date: "".into(), due_date: None, date_sort: None, due_date_sort: None },
    ];
    app.students = vec![s];
    app.focus = Focus::OverviewHomework;
    app.scroll_down();
    assert_eq!(app.homework_offset, 1);
    assert_eq!(app.schedule_offset, 0);
    assert_eq!(app.list_offset, 0);
}

#[test]
fn click_reports_offset_plus_row() {
    let mut app = App::new();
    app.current_tab = Tab::Messages;
    app.messages = (0..10)
        .map(|i| MessageThread { id: i, subject: "".into(), last_message: "".into(), last_sender: "".into(), participant_count: 1, is_unread: false, updated_at: "".into(), creator: "".into() })
        .collect();
    app.list_offset = 3;
    let r = app.click_list_item(6, 3, 40, 25, 20);
    assert_eq!(r, ClickResult::ActivateMessage(5));
    assert_eq!(app.list_offset, 3);
    let r = app.click_list_item(30, 3, 40, 25, 20);
    assert_eq!(r, ClickResult::Nothing);
    assert_eq!(app.list_offset, 3);
}

#[test]
fn drags_stay_within_bounds() {
    let mut app = App::new();
    app.students = vec![student(1, "A"), student(2, "B")];
    let area = (0u16, 3u16, 100u16, 40u16);
    assert!(app.start_drag(10, 30, area));
    for col in [0u16, 5, 200, 59, 61] {
        app.update_drag(10, col, area);
        assert!(app.students_pane_width >= 15 && app.students_pane_width <= 60);
    }
    app.drag_target = DragTarget::OverviewSplit;
    for row in [0u16, 3, 500, 20] {
        app.update_drag(row, 50, area);
        assert!(app.overview_split_percent >= 20 && app.overview_split_percent <= 70);
    }
    app.drag_target = DragTarget::OverviewBottomSplit;
    for row in [0u16, 500, 30] {
        app.update_drag(row, 50, area);
        assert!(app.overview_bottom_split_percent >= 30 && app.overview_bottom_split_percent <= 80);
    }
}

#[test]
fn fresh_record_is_served_with_zero_age() {
    let store = CacheStore::at("/tmp".to_string(), None);
    let record = CachedData { data: vec![1, 2, 3], cached_at: 1000 };
    let got = store.lookup_at(Some(record), 1000).unwrap();
    assert_eq!(got, (vec![1, 2, 3], "0s ago".to_string(), false));
}

#[test]
fn stale_homework_is_still_served_and_refetched() {
    let store = CacheStore::at("/tmp".to_string(), Some(3600));
    let hw = vec![Homework { id: Some(1), subject: "Math".into(), text: "x".into(), date: "".into(), due_date: None, date_sort: None, due_date_sort: None }];
    let record = CachedData { data: hw, cached_at: 0 };
    let (data, age, expired) = store.lookup_at(Some(record), 3601).unwrap();
    assert_eq!(data.len(), 1);
    assert_eq!(data[0].subject, "Math");
    assert_eq!(age, "1h ago");
    assert!(expired);
    assert!(should_refresh(false, Some(expired)));
    assert!(!should_refresh(false, Some(false)));
    assert!(should_refresh(false, None));
    assert!(should_refresh(true, Some(false)));
}

#[test]
fn missing_record_is_a_miss() {
    let store = CacheStore::at("/tmp".to_string(), None);
    assert_eq!(store.ttl(), 3600);
    assert!(store.lookup_at::<Vec<i32>>(None, 5).is_none());
}

#[test]
fn age_strings_use_coarsest_unit() {
    assert_eq!(age_text_between(0, 59), "59s ago");
    assert_eq!(age_text_between(0, 60), "1m ago");
    assert_eq!(age_text_between(0, 7200), "2h ago");
    assert_eq!(age_text_between(0, 86400 * 3), "3d ago");
    assert_eq!(age_text_between(10, 5), "-5s ago");
}

#[test]
fn failed_fetch_keeps_cached_value() {
    let (shown, save) = settle(true, None::<Vec<i32>>, Some((vec![4], "5m ago".to_string(), true)));
    assert_eq!(shown, Some((vec![4], "5m ago".to_string())));
    assert!(!save);
    let (shown, save) = settle(true, Some(vec![9]), Some((vec![4], "5m ago".to_string(), true)));
    assert_eq!(shown, Some((vec![9], "just now".to_string())));
    assert!(save);
    let (shown, save) = settle(false, Some(vec![9]), Some((vec![4], "5m ago".to_string(), false)));
    assert_eq!(shown, Some((vec![4], "5m ago".to_string())));
    assert!(!save);
}

#[test]
fn second_course_failure_keeps_first_course_items() {
    let fetched = vec![
        ("Math".to_string(), Some(vec![item(1, "2026-02-10"), item(2, "2026-02-12")])),
        ("English".to_string(), None),
    ];
    let hw = assemble_homework(&fetched);
    assert_eq!(hw.len(), 2);
    assert_eq!(hw[0].id, Some(2));
    assert_eq!(hw[1].id, Some(1));
    assert!(hw.iter().all(|h| h.subject == "Math"));
}

#[test]
fn homework_is_sorted_newest_first_across_courses() {
    let fetched = vec![
        ("A".to_string(), Some(vec![item(1, "2026-01-01")])),
        ("B".to_string(), Some(vec![item(2, "2026-03-01"), item(3, "2025-12-31")])),
    ];
    let hw = assemble_homework(&fetched);
    let ids: Vec<Option<i64>> = hw.iter().map(|h| h.id).collect();
    assert_eq!(ids, vec![Some(2), Some(1), Some(3)]);
}

#[test]
fn only_courses_with_pending_homework_are_fetched() {
    let courses = vec![
        HomeworkCourse { cyc_group_id: Some(11), course_name: Some("Mathematics".into()), course_short_name: Some("Math".into()) },
        HomeworkCourse { cyc_group_id: Some(12), course_name: Some("English".into()), course_short_name: None },
        HomeworkCourse { cyc_group_id: Some(13), course_name: None, course_short_name: None },
        HomeworkCourse { cyc_group_id: None, course_name: Some("Art".into()), course_short_name: None },
    ];
    let counts = vec![("11".to_string(), 2), ("12".to_string(), 0), ("13".to_string(), 1)];
    let groups = homework_courses(&courses, &counts);
    assert_eq!(groups, vec![(11, "Math".to_string()), (13, "Unknown".to_string())]);
}

#[test]
fn schedule_day_navigation() {
    let mut app = App::new();
    app.schedule_date = "2026-02-28".to_string();
    app.schedule_next_day();
    assert_eq!(app.schedule_date, "2026-03-01");
    app.schedule_prev_day();
    assert_eq!(app.schedule_date, "2026-02-28");
    app.schedule_date = "2024-12-31".to_string();
    app.schedule_next_day();
    assert_eq!(app.schedule_date, "2025-01-01");
    app.schedule_date = "not a date".to_string();
    app.schedule_next_day();
    assert_eq!(app.schedule_date, "not a date");
    assert_eq!(shift_iso_date("2024-03-01", false), Some("2024-02-29".to_string()));
    assert_eq!(shift_iso_date("2023-02-30", true), None);
}

#[test]
fn text_helpers() {
    assert_eq!(decimal_text(0), "0");
    assert_eq!(decimal_text(1234), "1234");
    assert_eq!(padded_text(7, 2), "07");
    assert_eq!(padded_text(2026, 4), "2026");
    assert_eq!(parse_u32("+42"), Some(42));
    assert_eq!(parse_u32("4294967296"), None);
    assert_eq!(parse_u32(""), None);
    assert_eq!(parse_i64("-9223372036854775808"), Some(i64::MIN));
    assert_eq!(parse_i64("12a"), None);
    assert_eq!(split_three("a.b.c", '.'), Some(("a".to_string(), "b".to_string(), "c".to_string())));
    assert_eq!(split_three("a.b", '.'), None);
    assert_eq!(compare_text("abc", "abd"), std::cmp::Ordering::Less);
    assert_eq!(compare_text("ab", "a"), std::cmp::Ordering::Greater);
}

#[test]
fn clicking_a_tab_label_selects_it() {
    let mut app = App::new();
    app.lang = shkolo::i18n::Lang::En;
    // " Overview " spans columns 1..11, then a separator, then " Homework ".
    assert!(app.click_tab(13));
    assert_eq!(app.current_tab, Tab::Homework);
    assert!(!app.click_tab(500));
    assert_eq!(app.current_tab, Tab::Homework);
}

#[test]
fn notification_types_open_related_tabs() {
    let mut app = App::new();
    app.current_tab = Tab::Notifications;
    app.notifications = vec![
        Notification { id: None, title: "a".into(), body: None, date: "".into(), is_read: false, notification_type: Some("new_thread_message".into()), pupil_names: None },
        Notification { id: None, title: "b".into(), body: None, date: "".into(), is_read: false, notification_type: Some("other".into()), pupil_names: None },
    ];
    assert!(!app.activate_notification_at(1));
    assert_eq!(app.current_tab, Tab::Notifications);
    assert!(app.activate_notification_at(0));
    assert_eq!(app.current_tab, Tab::Messages);
}

#[test]
fn new_session_is_dated_from_the_clock() {
    let app = App::new();
    let d = app.current_date.clone();
    assert_eq!(d.len(), 10);
    assert_eq!(&d[4..5], "-");
    assert_eq!(&d[7..8], "-");
    assert_eq!(app.schedule_date, d);
    assert!(app.current_time.0 < 24 && app.current_time.1 < 60);
    assert!(app.is_schedule_today());
}

#[test]
fn stamped_record_is_fresh_now() {
    let store = CacheStore::at("/tmp".to_string(), Some(3600));
    let record = store.save_students(vec![Student { id: 1, name: "A".into(), class_name: None, school_name: None }]);
    let (data, _age, expired) = store.get_students(Some(record)).unwrap();
    assert_eq!(data.len(), 1);
    assert!(!expired);
}

#[test]
fn clicking_a_student_keeps_scroll_position() {
    let mut app = App::new();
    app.current_tab = Tab::Homework;
    app.students = vec![student(1, "A"), student(2, "B")];
    app.list_offset = 4;
    let r = app.click_list_item(5, 3, 2, 25, 20);
    assert_eq!(r, ClickResult::StudentSelected);
    assert_eq!(app.selected_student, 1);
    assert_eq!(app.list_offset, 4);
}
