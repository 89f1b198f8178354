use shkolo::app::{calculate_scroll, App, ClickResult, DragTarget, Focus, InputMode, MessageView, StudentData, Tab};
use shkolo::history::{Location, NavHistory};
use shkolo::models::{MessageThread, Notification, Student};

#[test]
fn test_calculate_scroll_center_biased() {
    // Edge case: empty list
    assert_eq!(calculate_scroll(0, 10, 0), 0);

    // Edge case: everything fits
    assert_eq!(calculate_scroll(5, 20, 10), 0);
    assert_eq!(calculate_scroll(0, 20, 10), 0);

    // Normal case: selected item should be centered
    // 100 items, 10 visible, select item 50 -> scroll to ~45
    let scroll = calculate_scroll(50, 10, 100);
    assert!(scroll >= 43 && scroll <= 47, "scroll={} should center item 50 in 10-item view", scroll);

    // Near start: selected near beginning shouldn't scroll much
    assert_eq!(calculate_scroll(2, 10, 100), 0);

    // Near end: selected near end shouldn't scroll past max
    let max_scroll = 100 - 10; // 90
    let scroll = calculate_scroll(98, 10, 100);
    assert_eq!(scroll, max_scroll);

    // Selection at exact middle of visible window
    let scroll = calculate_scroll(5, 10, 100);
    assert_eq!(scroll, 0); // Still at start, item 5 is visible
}

#[test]
fn test_app_initial_state() {
    let app = App::new();

    assert!(app.running);
    assert_eq!(app.current_tab, Tab::Overview);
    assert_eq!(app.focus, Focus::Students);
    assert_eq!(app.selected_student, 0);
    assert!(!app.loading);
    assert!(!app.show_help);
}

#[test]
fn test_students_pane_resize() {
    let mut app = App::new();
    let initial_width = app.students_pane_width;

    // Increase width
    app.resize_students_pane(5);
    assert_eq!(app.students_pane_width, initial_width + 5);

    // Decrease width
    app.resize_students_pane(-3);
    assert_eq!(app.students_pane_width, initial_width + 2);
}

#[test]
fn test_students_pane_resize_bounds() {
    let mut app = App::new();

    // Try to shrink below minimum (15)
    app.students_pane_width = 20;
    app.resize_students_pane(-10);
    assert_eq!(app.students_pane_width, 15); // Clamped to min

    // Try to grow above maximum (60)
    app.students_pane_width = 55;
    app.resize_students_pane(10);
    assert_eq!(app.students_pane_width, 60); // Clamped to max
}

#[test]
fn test_overview_split_resize() {
    let mut app = App::new();
    let initial_split = app.overview_split_percent;

    // Increase split
    app.resize_overview_split(10);
    assert_eq!(app.overview_split_percent, initial_split + 10);

    // Decrease split
    app.resize_overview_split(-5);
    assert_eq!(app.overview_split_percent, initial_split + 5);
}

#[test]
fn test_overview_split_resize_bounds() {
    let mut app = App::new();

    // Try to shrink below minimum (20)
    app.overview_split_percent = 25;
    app.resize_overview_split(-10);
    assert_eq!(app.overview_split_percent, 20); // Clamped to min

    // Try to grow above maximum (70)
    app.overview_split_percent = 65;
    app.resize_overview_split(10);
    assert_eq!(app.overview_split_percent, 70); // Clamped to max
}

#[test]
fn test_tab_navigation() {
    let mut app = App::new();
    assert_eq!(app.current_tab, Tab::Overview);

    // Next tab (Overview -> Homework)
    app.next_tab();
    assert_eq!(app.current_tab, Tab::Homework);

    // Previous tab (Homework -> Overview)
    app.prev_tab();
    assert_eq!(app.current_tab, Tab::Overview);

    // Previous tab wraps around (Overview -> Settings)
    app.prev_tab();
    assert_eq!(app.current_tab, Tab::Settings);
}

#[test]
fn test_select_tab_by_index() {
    let mut app = App::new();
    assert_eq!(app.current_tab, Tab::Overview);

    // Select tab by index (0-8 for 9 tabs)
    app.select_tab(0);
    assert_eq!(app.current_tab, Tab::Overview);

    app.select_tab(1);
    assert_eq!(app.current_tab, Tab::Homework);

    app.select_tab(4);
    assert_eq!(app.current_tab, Tab::Absences);

    app.select_tab(8);
    assert_eq!(app.current_tab, Tab::Settings);

    // Invalid index should be ignored
    app.select_tab(99);
    assert_eq!(app.current_tab, Tab::Settings); // Unchanged
}

#[test]
fn test_focus_toggle_on_overview() {
    let mut app = App::new();
    app.current_tab = Tab::Overview;
    // Need multiple students to show students pane
    app.students = vec![
        StudentData::new(Student { id: 1, name: "Alice".into(), class_name: None, school_name: None }),
        StudentData::new(Student { id: 2, name: "Bob".into(), class_name: None, school_name: None }),
    ];
    assert_eq!(app.focus, Focus::Students);

    // Toggle cycles through: Students -> OverviewSchedule -> OverviewHomework -> OverviewGrades -> Students
    app.toggle_focus();
    assert_eq!(app.focus, Focus::OverviewSchedule);

    app.toggle_focus();
    assert_eq!(app.focus, Focus::OverviewHomework);

    app.toggle_focus();
    assert_eq!(app.focus, Focus::OverviewGrades);

    app.toggle_focus();
    assert_eq!(app.focus, Focus::Students);
}

#[test]
fn test_focus_toggle_single_student() {
    let mut app = App::new();
    app.current_tab = Tab::Overview;
    // Single student - no students pane
    app.students = vec![
        StudentData::new(Student { id: 1, name: "Alice".into(), class_name: None, school_name: None }),
    ];
    app.focus = Focus::OverviewSchedule;

    // Toggle cycles through: Schedule -> Homework -> Grades -> Schedule (no Students)
    app.toggle_focus();
    assert_eq!(app.focus, Focus::OverviewHomework);

    app.toggle_focus();
    assert_eq!(app.focus, Focus::OverviewGrades);

    app.toggle_focus();
    assert_eq!(app.focus, Focus::OverviewSchedule);
}

#[test]
fn test_student_selection() {
    let mut app = App::new();

    // Add mock students
    app.students = vec![
        StudentData::new(Student { id: 1, name: "Student 1".to_string(), class_name: None, school_name: None }),
        StudentData::new(Student { id: 2, name: "Student 2".to_string(), class_name: None, school_name: None }),
        StudentData::new(Student { id: 3, name: "Student 3".to_string(), class_name: None, school_name: None }),
    ];

    assert_eq!(app.selected_student, 0);

    // Next student
    app.next_student();
    assert_eq!(app.selected_student, 1);

    // Select by index
    app.select_student(2);
    assert_eq!(app.selected_student, 2);

    // Previous student
    app.prev_student();
    assert_eq!(app.selected_student, 1);
}

#[test]
fn test_student_selection_bounds() {
    let mut app = App::new();

    app.students = vec![
        StudentData::new(Student { id: 1, name: "Student 1".to_string(), class_name: None, school_name: None }),
        StudentData::new(Student { id: 2, name: "Student 2".to_string(), class_name: None, school_name: None }),
    ];

    // Try to select beyond bounds - should be ignored
    app.selected_student = 0;
    app.select_student(5);
    assert_eq!(app.selected_student, 0); // Unchanged (invalid index ignored)

    // prev_student wraps around to last student
    app.selected_student = 0;
    app.prev_student();
    assert_eq!(app.selected_student, 1); // Wraps to last (index 1)
}

#[test]
fn test_help_toggle() {
    let mut app = App::new();
    assert!(!app.show_help);

    app.toggle_help();
    assert!(app.show_help);

    app.toggle_help();
    assert!(!app.show_help);
}

#[test]
fn test_schedule_date_navigation() {
    let mut app = App::new();
    app.schedule_date = "2026-02-19".to_string();

    app.schedule_next_day();
    assert_eq!(app.schedule_date, "2026-02-20");

    app.schedule_prev_day();
    assert_eq!(app.schedule_date, "2026-02-19");
}

#[test]
fn test_scroll_operations() {
    let mut app = App::new();
    // Need to be on a tab that uses list_offset with Content focus
    app.current_tab = Tab::Notifications;
    app.focus = Focus::Content;

    // Add some items so scrolling works
    app.notifications = vec![
        Notification { id: Some("1".into()), title: "N1".into(), body: Some("Body".into()), date: "".into(), is_read: false, notification_type: None, pupil_names: None },
        Notification { id: Some("2".into()), title: "N2".into(), body: Some("Body".into()), date: "".into(), is_read: false, notification_type: None, pupil_names: None },
        Notification { id: Some("3".into()), title: "N3".into(), body: Some("Body".into()), date: "".into(), is_read: false, notification_type: None, pupil_names: None },
    ];

    assert_eq!(app.list_offset, 0);

    app.scroll_down();
    assert_eq!(app.list_offset, 1);

    app.scroll_down();
    assert_eq!(app.list_offset, 2);

    app.scroll_up();
    assert_eq!(app.list_offset, 1);

    // Can't go below 0
    app.scroll_up();
    app.scroll_up();
    assert_eq!(app.list_offset, 0);
}

#[test]
fn test_message_view_states() {
    let mut app = App::new();
    app.current_tab = Tab::Messages;

    assert_eq!(app.message_view, MessageView::List);

    // Add mock messages
    app.messages = vec![MessageThread {
        id: 1,
        subject: "Test".to_string(),
        last_message: "Preview".to_string(),
        last_sender: "Sender".to_string(),
        participant_count: 1,
        is_unread: true,
        updated_at: "19.02.2026".to_string(),
        creator: "Creator".to_string(),
    }];

    // Open thread
    app.list_offset = 0;
    let thread_id = app.open_thread();
    assert_eq!(thread_id, Some(1));
    assert_eq!(app.message_view, MessageView::Thread);

    // Close thread
    app.close_thread();
    assert_eq!(app.message_view, MessageView::List);
}

#[test]
fn test_input_mode_operations() {
    let mut app = App::new();
    assert_eq!(app.input_mode, InputMode::Normal);

    // start_reply only works when in Thread view
    app.message_view = MessageView::Thread;
    app.start_reply();
    assert_eq!(app.input_mode, InputMode::Reply);
    assert!(app.input_buffer.is_empty());

    // Type some text
    app.input_char('H');
    app.input_char('i');
    assert_eq!(app.input_buffer, "Hi");
    assert_eq!(app.input_cursor, 2);

    // Move cursor
    app.input_left();
    assert_eq!(app.input_cursor, 1);

    // Backspace
    app.input_backspace();
    assert_eq!(app.input_buffer, "i");
    assert_eq!(app.input_cursor, 0);

    // Cancel input
    app.cancel_input();
    assert_eq!(app.input_mode, InputMode::Normal);
    assert!(app.input_buffer.is_empty());
}

#[test]
fn test_status_and_error_messages() {
    let mut app = App::new();

    // Set status
    app.set_status("Loading...");
    assert_eq!(app.status_message, Some("Loading...".to_string()));

    // Clear status
    app.clear_status();
    assert_eq!(app.status_message, None);

    // Set error
    app.set_error("Something went wrong");
    assert_eq!(app.error_message, Some("Something went wrong".to_string()));

    // Clear error
    app.clear_error();
    assert_eq!(app.error_message, None);
}

#[test]
fn test_click_student_selection() {

    let mut app = App::new();
    // Setup: 3 students, header_offset=3 (tabs + borders), students_width=25
    app.students = vec![
        StudentData::new(Student { id: 1, name: "Alice".into(), class_name: None, school_name: None }),
        StudentData::new(Student { id: 2, name: "Bob".into(), class_name: None, school_name: None }),
        StudentData::new(Student { id: 3, name: "Carol".into(), class_name: None, school_name: None }),
    ];
    let header_offset = 3;
    let students_width = 25;
    let content_height = 20;

    // Click on first student (row 4 = header 3 + border 1 + item 0)
    let result = app.click_list_item(4, header_offset, 5, students_width, content_height);
    assert!(matches!(result, ClickResult::StudentSelected));
    assert_eq!(app.selected_student, 0);
    assert_eq!(app.focus, Focus::Students);

    // Click on second student (row 5)
    let result = app.click_list_item(5, header_offset, 5, students_width, content_height);
    assert!(matches!(result, ClickResult::StudentSelected));
    assert_eq!(app.selected_student, 1);

    // Click on third student (row 6)
    let result = app.click_list_item(6, header_offset, 5, students_width, content_height);
    assert!(matches!(result, ClickResult::StudentSelected));
    assert_eq!(app.selected_student, 2);

    // Click outside list bounds (row 7) - no change
    let result = app.click_list_item(7, header_offset, 5, students_width, content_height);
    assert!(matches!(result, ClickResult::Nothing));
    assert_eq!(app.selected_student, 2); // Still last selected

    // Click in header area (row 3 = header_offset)
    let result = app.click_list_item(3, header_offset, 5, students_width, content_height);
    assert!(matches!(result, ClickResult::Nothing));
}

#[test]
fn test_click_content_does_not_scroll() {
    let mut app = App::new();
    app.current_tab = Tab::Notifications;
    app.focus = Focus::Content;

    // Setup notifications
    app.notifications = vec![
        Notification { id: Some("1".into()), title: "N1".into(), body: Some("Body".into()), date: "".into(), is_read: false, notification_type: Some("new_grade".into()), pupil_names: None },
        Notification { id: Some("2".into()), title: "N2".into(), body: Some("Body".into()), date: "".into(), is_read: false, notification_type: Some("new_homework".into()), pupil_names: None },
        Notification { id: Some("3".into()), title: "N3".into(), body: Some("Body".into()), date: "".into(), is_read: false, notification_type: Some("new_grade".into()), pupil_names: None },
        Notification { id: Some("4".into()), title: "N4".into(), body: Some("Body".into()), date: "".into(), is_read: false, notification_type: Some("new_grade".into()), pupil_names: None },
    ];

    let header_offset = 3;
    let students_width = 25;
    let content_height = 20;

    // Start scrolled down by 1
    app.list_offset = 1;
    let initial_offset = app.list_offset;

    // Click on visible item at row 4 (should be index 1 in visible area, so actual item index = 1 + 1 = 2)
    let result = app.click_list_item(4, header_offset, 30, students_width, content_height);

    // Click should return the correct index
    assert!(matches!(result, ClickResult::ActivateNotification(1)));

    // Scroll position should NOT have changed
    assert_eq!(app.list_offset, initial_offset);

    // Clicking in content area should set focus to Content
    assert_eq!(app.focus, Focus::Content);
}

#[test]
fn test_click_sets_focus_on_overview() {
    let mut app = App::new();
    app.current_tab = Tab::Overview;
    app.students_pane_width = 25;
    app.overview_split_percent = 50; // Schedule takes 50% (rows 0-9)
    app.overview_bottom_split_percent = 60; // Homework takes 60% of bottom (rows 10-15), grades (rows 16-19)
    app.students = vec![
        StudentData::new(Student { id: 1, name: "Alice".into(), class_name: None, school_name: None }),
    ];

    let header_offset = 3;
    let students_width = 25;
    let content_height = 20; // Total content height

    // Layout:
    // - Schedule: rows 0-9 (50% of 20)
    // - Homework: rows 10-15 (60% of remaining 10 = 6 rows)
    // - Grades: rows 16-19 (40% of remaining 10 = 4 rows)

    // Click in students pane - should set Focus::Students
    app.focus = Focus::Content;
    app.click_list_item(5, header_offset, 5, students_width, content_height);
    assert_eq!(app.focus, Focus::Students);

    // Click in schedule area (row 5 relative to content = row 2, which is < 10)
    // Absolute row 5 - header 3 = content row 2
    app.focus = Focus::Students;
    app.click_list_item(5, header_offset, 30, students_width, content_height);
    assert_eq!(app.focus, Focus::OverviewSchedule);

    // Click in homework area (content row 12, which is between 10 and 16)
    // Absolute row 15 - header 3 = content row 12
    app.focus = Focus::Students;
    app.click_list_item(15, header_offset, 30, students_width, content_height);
    assert_eq!(app.focus, Focus::OverviewHomework);

    // Click in grades area (content row 17, which is >= 16)
    // Absolute row 20 - header 3 = content row 17
    app.focus = Focus::Students;
    app.click_list_item(20, header_offset, 30, students_width, content_height);
    assert_eq!(app.focus, Focus::OverviewGrades);
}

#[test]
fn test_click_notification_activates() {
    let mut app = App::new();
    app.current_tab = Tab::Notifications;
    app.focus = Focus::Content;

    app.notifications = vec![
        Notification { id: Some("1".into()), title: "N1".into(), body: None, date: "".into(), is_read: false, notification_type: Some("new_grade".into()), pupil_names: None },
        Notification { id: Some("2".into()), title: "N2".into(), body: None, date: "".into(), is_read: false, notification_type: Some("new_homework".into()), pupil_names: None },
    ];

    // Activate notification at index 1
    let success = app.activate_notification_at(1);
    assert!(success);
    assert_eq!(app.current_tab, Tab::Homework);

    // Reset
    app.current_tab = Tab::Notifications;

    // Activate notification at index 0
    let success = app.activate_notification_at(0);
    assert!(success);
    assert_eq!(app.current_tab, Tab::Grades);
}

#[test]
fn test_click_message_opens_thread() {
    let mut app = App::new();
    app.current_tab = Tab::Messages;
    app.message_view = MessageView::List;

    app.messages = vec![
        MessageThread { id: 100, subject: "Thread A".into(), last_message: "".into(), last_sender: "".into(), participant_count: 1, is_unread: false, updated_at: "".into(), creator: "".into() },
        MessageThread { id: 200, subject: "Thread B".into(), last_message: "".into(), last_sender: "".into(), participant_count: 2, is_unread: true, updated_at: "".into(), creator: "".into() },
    ];

    // Open thread at index 1
    let result = app.open_thread_at(1);
    assert_eq!(result, Some(200));
    assert_eq!(app.message_view, MessageView::Thread);
    assert_eq!(app.selected_thread_id, Some(200));

    // Close and try index 0
    app.close_thread();
    let result = app.open_thread_at(0);
    assert_eq!(result, Some(100));
    assert_eq!(app.selected_thread_id, Some(100));
}

#[test]
fn test_drag_students_pane() {
    let mut app = App::new();
    app.current_tab = Tab::Overview;
    app.students_pane_width = 30;
    // Need multiple students to show students pane
    app.students = vec![
        StudentData::new(Student { id: 1, name: "Alice".into(), class_name: None, school_name: None }),
        StudentData::new(Student { id: 2, name: "Bob".into(), class_name: None, school_name: None }),
    ];

    // Content area: (x=0, y=3, width=100, height=40)
    let content_area = (0u16, 3u16, 100u16, 40u16);

    // Click near the vertical border (x=30, should be within hit zone of 2)
    let started = app.start_drag(10, 31, content_area);
    assert!(started);
    assert_eq!(app.drag_target, DragTarget::StudentsPaneWidth);
    assert!(app.is_dragging());

    // Drag to new position (column 45)
    app.update_drag(10, 45, content_area);
    assert_eq!(app.students_pane_width, 45);

    // End drag
    app.end_drag();
    assert_eq!(app.drag_target, DragTarget::Idle);
    assert!(!app.is_dragging());
}

#[test]
fn test_drag_overview_split() {
    let mut app = App::new();
    app.current_tab = Tab::Overview;
    app.students_pane_width = 30;
    app.overview_split_percent = 40;

    // Content area: (x=0, y=3, width=100, height=50)
    let content_area = (0u16, 3u16, 100u16, 50u16);

    // The split border should be at row 3 + (50 * 40 / 100) = 3 + 20 = 23
    // Click near that row, but to the right of students pane (column > 30)
    let started = app.start_drag(23, 50, content_area);
    assert!(started);
    assert_eq!(app.drag_target, DragTarget::OverviewSplit);

    // Drag to new position (row 28, which is 50% of content height)
    // (28 - 3) / 50 * 100 = 50%
    app.update_drag(28, 50, content_area);
    assert_eq!(app.overview_split_percent, 50);

    app.end_drag();
}

#[test]
fn test_drag_overview_bottom_split() {
    let mut app = App::new();
    app.current_tab = Tab::Overview;
    app.students_pane_width = 30;
    app.overview_split_percent = 40;
    app.overview_bottom_split_percent = 60;

    // Content area: (x=0, y=3, width=100, height=50)
    let content_area = (0u16, 3u16, 100u16, 50u16);

    // Main split at row 3 + (50 * 40 / 100) = 23
    // Bottom section starts at row 23, height = 30 (50 - 20)
    // Bottom split at row 23 + (30 * 60 / 100) = 23 + 18 = 41
    let started = app.start_drag(41, 50, content_area);
    assert!(started);
    assert_eq!(app.drag_target, DragTarget::OverviewBottomSplit);

    // Drag to new position (row 35, which is about 40% of bottom section)
    // (35 - 23) / 30 * 100 = 40%
    app.update_drag(35, 50, content_area);
    assert_eq!(app.overview_bottom_split_percent, 40);

    app.end_drag();
}

#[test]
fn test_drag_not_started_outside_borders() {
    let mut app = App::new();
    // Use a tab without overview split to simplify test
    app.current_tab = Tab::Homework;
    app.students_pane_width = 30;
    // Need multiple students to show students pane
    app.students = vec![
        StudentData::new(Student { id: 1, name: "Alice".into(), class_name: None, school_name: None }),
        StudentData::new(Student { id: 2, name: "Bob".into(), class_name: None, school_name: None }),
    ];

    let content_area = (0u16, 3u16, 100u16, 40u16);

    // Click far from vertical border (30 +/- 2)
    let started = app.start_drag(20, 60, content_area);
    assert!(!started);
    assert_eq!(app.drag_target, DragTarget::Idle);
}

#[test]
fn test_drag_respects_bounds() {
    let mut app = App::new();
    app.current_tab = Tab::Overview;
    app.students_pane_width = 30;
    // Need multiple students to show students pane
    app.students = vec![
        StudentData::new(Student { id: 1, name: "Alice".into(), class_name: None, school_name: None }),
        StudentData::new(Student { id: 2, name: "Bob".into(), class_name: None, school_name: None }),
    ];

    let content_area = (0u16, 3u16, 100u16, 40u16);

    // Start drag on students pane border
    app.start_drag(10, 30, content_area);
    assert_eq!(app.drag_target, DragTarget::StudentsPaneWidth);

    // Try to drag beyond minimum (15)
    app.update_drag(10, 5, content_area);
    assert_eq!(app.students_pane_width, 15); // Clamped to min

    // Try to drag beyond maximum (60)
    app.update_drag(10, 80, content_area);
    assert_eq!(app.students_pane_width, 60); // Clamped to max
}

#[test]
fn test_navigation_history_basic() {
    let mut app = App::new();

    // Initial state: Overview tab
    assert_eq!(app.current_tab, Tab::Overview);
    assert!(!app.can_go_back()); // No history yet
    assert!(!app.can_go_forward());

    // Navigate to Homework tab
    app.set_tab(Tab::Homework);
    assert_eq!(app.current_tab, Tab::Homework);
    assert!(app.can_go_back()); // Can go back to Overview
    assert!(!app.can_go_forward());

    // Go back
    assert!(app.go_back());
    assert_eq!(app.current_tab, Tab::Overview);
    assert!(!app.can_go_back());
    assert!(app.can_go_forward()); // Can go forward to Homework

    // Go forward
    assert!(app.go_forward());
    assert_eq!(app.current_tab, Tab::Homework);
    assert!(app.can_go_back());
    assert!(!app.can_go_forward());
}

#[test]
fn test_navigation_history_thread() {
    let mut app = App::new();
    app.current_tab = Tab::Messages;
    app.message_view = MessageView::List;
    app.messages = vec![
        MessageThread { id: 100, subject: "Test".into(), last_message: "".into(), last_sender: "".into(), participant_count: 1, is_unread: false, updated_at: "".into(), creator: "".into() },
    ];

    // Clear default history and start fresh
    app.nav_history = NavHistory::new(Location {
        tab: Tab::Messages,
        message_view: MessageView::List,
        selected_thread_id: None,
    });

    // Open thread
    let thread_id = app.open_thread();
    assert_eq!(thread_id, Some(100));
    assert_eq!(app.message_view, MessageView::Thread);
    assert!(app.can_go_back());

    // Go back to list
    assert!(app.go_back());
    assert_eq!(app.message_view, MessageView::List);
    assert_eq!(app.selected_thread_id, None);
    assert!(app.can_go_forward());

    // Go forward to thread
    assert!(app.go_forward());
    assert_eq!(app.message_view, MessageView::Thread);
    assert_eq!(app.selected_thread_id, Some(100));
}

#[test]
fn test_navigation_history_truncates_forward() {
    let mut app = App::new();

    // Navigate: Overview -> Homework -> Grades
    app.set_tab(Tab::Homework);
    app.set_tab(Tab::Grades);
    assert_eq!(app.current_tab, Tab::Grades);

    // Go back to Homework
    app.go_back();
    assert_eq!(app.current_tab, Tab::Homework);
    assert!(app.can_go_forward()); // Can still go to Grades

    // Now navigate to Schedule (should truncate forward history)
    app.set_tab(Tab::Schedule);
    assert_eq!(app.current_tab, Tab::Schedule);
    assert!(!app.can_go_forward()); // Forward history cleared

    // History should be: Overview -> Homework -> Schedule
    app.go_back();
    assert_eq!(app.current_tab, Tab::Homework);
    app.go_back();
    assert_eq!(app.current_tab, Tab::Overview);
}
