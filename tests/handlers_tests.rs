use shkolo::app::{App, AutoRefreshInterval, InputMode, MessageView, Tab};
use shkolo::handlers::{get_keybindings, handle_key, handle_mouse, poll_timeout_ms, Action, Key, KeyPress, Pointer};
use shkolo::models::Recipient;

fn key_event(key: Key) -> KeyPress {
    KeyPress::plain(key)
}

#[test]
fn test_refresh_on_schedule_tab_refreshes_selected_date() {
    let mut app = App::new();

    app.current_tab = Tab::Overview;
    let action = handle_key(&mut app, key_event(Key::Char('r')));
    assert!(matches!(action, Action::Refresh));

    app.current_tab = Tab::Schedule;
    let action = handle_key(&mut app, key_event(Key::Char('r')));
    assert!(matches!(action, Action::RefreshSchedule));

    app.current_tab = Tab::Homework;
    let action = handle_key(&mut app, key_event(Key::Char('r')));
    assert!(matches!(action, Action::Refresh));
}

#[test]
fn test_refresh_all_works_on_any_tab() {
    let mut app = App::new();

    app.current_tab = Tab::Overview;
    let action = handle_key(&mut app, key_event(Key::Char('R')));
    assert!(matches!(action, Action::RefreshAll));

    app.current_tab = Tab::Schedule;
    let action = handle_key(&mut app, key_event(Key::Char('R')));
    assert!(matches!(action, Action::RefreshAll));
}

#[test]
fn test_auto_refresh_toggle_on_settings() {
    let mut app = App::new();
    app.current_tab = Tab::Settings;

    assert_eq!(app.auto_refresh_interval, AutoRefreshInterval::Min10);

    let action = handle_key(&mut app, key_event(Key::Char('a')));
    assert!(matches!(action, Action::Nothing));
    assert_eq!(app.auto_refresh_interval, AutoRefreshInterval::Min30);

    handle_key(&mut app, key_event(Key::Char('A')));
    assert_eq!(app.auto_refresh_interval, AutoRefreshInterval::Min60);

    handle_key(&mut app, key_event(Key::Char('a')));
    assert_eq!(app.auto_refresh_interval, AutoRefreshInterval::Off);

    handle_key(&mut app, key_event(Key::Char('a')));
    assert_eq!(app.auto_refresh_interval, AutoRefreshInterval::Min1);

    handle_key(&mut app, key_event(Key::Char('a')));
    assert_eq!(app.auto_refresh_interval, AutoRefreshInterval::Min5);

    handle_key(&mut app, key_event(Key::Char('a')));
    assert_eq!(app.auto_refresh_interval, AutoRefreshInterval::Min10);
}

#[test]
fn test_auto_refresh_interval_minutes() {
    assert_eq!(AutoRefreshInterval::Off.minutes(), None);
    assert_eq!(AutoRefreshInterval::Min1.minutes(), Some(1));
    assert_eq!(AutoRefreshInterval::Min5.minutes(), Some(5));
    assert_eq!(AutoRefreshInterval::Min10.minutes(), Some(10));
    assert_eq!(AutoRefreshInterval::Min30.minutes(), Some(30));
    assert_eq!(AutoRefreshInterval::Min60.minutes(), Some(60));
}

#[test]
fn ctrl_c_quits_from_any_mode() {
    let mut app = App::new();
    app.input_mode = InputMode::Reply;
    let action = handle_key(&mut app, KeyPress { key: Key::Char('c'), ctrl: true, shift: false });
    assert!(matches!(action, Action::Nothing));
    assert!(!app.running);
}

#[test]
fn digit_keys_select_tabs() {
    let mut app = App::new();
    handle_key(&mut app, key_event(Key::Char('3')));
    assert_eq!(app.current_tab, Tab::Grades);
    handle_key(&mut app, key_event(Key::Char('9')));
    assert_eq!(app.current_tab, Tab::Settings);
    handle_key(&mut app, key_event(Key::Backspace));
    assert_eq!(app.current_tab, Tab::Grades);
    handle_key(&mut app, KeyPress { key: Key::Backspace, ctrl: false, shift: true });
    assert_eq!(app.current_tab, Tab::Settings);
}

#[test]
fn reply_is_sent_with_typed_text() {
    let mut app = App::new();
    app.current_tab = Tab::Messages;
    app.message_view = MessageView::Thread;
    handle_key(&mut app, key_event(Key::Char('r')));
    assert_eq!(app.input_mode, InputMode::Reply);
    handle_key(&mut app, key_event(Key::Char('o')));
    handle_key(&mut app, key_event(Key::Char('k')));
    let action = handle_key(&mut app, key_event(Key::Enter));
    match action {
        Action::SendReply(text) => assert_eq!(text, "ok"),
        _ => panic!("expected a reply"),
    }
    assert_eq!(app.input_mode, InputMode::Normal);
}

#[test]
fn compose_is_sent_with_subject_body_and_recipients() {
    let mut app = App::new();
    app.current_tab = Tab::Messages;
    app.message_view = MessageView::Compose;
    app.compose_subject = "Hi".to_string();
    app.input_buffer = "Body".to_string();
    app.input_cursor = 4;
    app.selected_recipients = vec![7, 9];
    app.input_mode = InputMode::ComposeBody;
    let action = handle_key(&mut app, key_event(Key::Enter));
    match action {
        Action::SendCompose { subject, body, recipients } => {
            assert_eq!(subject, "Hi");
            assert_eq!(body, "Body");
            assert_eq!(recipients, vec![7, 9]);
        }
        _ => panic!("expected a new message"),
    }
    assert_eq!(app.message_view, MessageView::List);
}

#[test]
fn help_and_errors_are_dismissed_first() {
    let mut app = App::new();
    app.show_help = true;
    let action = handle_key(&mut app, key_event(Key::Char('R')));
    assert!(matches!(action, Action::Nothing));
    assert!(!app.show_help);
    app.set_error("boom");
    let action = handle_key(&mut app, key_event(Key::Char('R')));
    assert!(matches!(action, Action::Nothing));
    assert_eq!(app.error_message, None);
}

#[test]
fn keybindings_start_with_help() {
    let app = App::new();
    let b = get_keybindings(&app);
    assert_eq!(b[0].0, "?");
    assert!(b.len() > 5);
}

#[test]
fn compose_view_keys_choose_recipients() {
    let mut app = App::new();
    app.current_tab = Tab::Messages;
    app.message_view = MessageView::Compose;
    app.recipients = vec![
        Recipient { id: 5, name: "A".into(), recipient_type: "".into() },
        Recipient { id: 6, name: "B".into(), recipient_type: "".into() },
    ];
    handle_key(&mut app, key_event(Key::Char('s')));
    assert_eq!(app.input_mode, InputMode::Normal);
    handle_key(&mut app, key_event(Key::Down));
    handle_key(&mut app, key_event(Key::Down));
    assert_eq!(app.list_offset, 1);
    handle_key(&mut app, key_event(Key::Char(' ')));
    assert_eq!(app.selected_recipients, vec![6]);
    handle_key(&mut app, key_event(Key::Enter));
    assert!(app.selected_recipients.is_empty());
    handle_key(&mut app, key_event(Key::Enter));
    handle_key(&mut app, key_event(Key::Char('s')));
    assert_eq!(app.input_mode, InputMode::ComposeSubject);
}

#[test]
fn typing_keys_edit_the_buffer() {
    let mut app = App::new();
    app.input_mode = InputMode::Reply;
    for c in ['a', 'b', 'c'] {
        handle_key(&mut app, key_event(Key::Char(c)));
    }
    handle_key(&mut app, key_event(Key::Home));
    assert_eq!(app.input_cursor, 0);
    handle_key(&mut app, key_event(Key::Delete));
    assert_eq!(app.input_buffer, "bc");
    handle_key(&mut app, key_event(Key::End));
    assert_eq!(app.input_cursor, 2);
    handle_key(&mut app, key_event(Key::Backspace));
    assert_eq!(app.input_buffer, "b");
    handle_key(&mut app, key_event(Key::Esc));
    assert_eq!(app.input_mode, InputMode::Normal);
    assert!(app.input_buffer.is_empty());
}

#[test]
fn subject_enter_moves_to_body_and_empty_reply_is_not_sent() {
    let mut app = App::new();
    app.input_mode = InputMode::Reply;
    let action = handle_key(&mut app, key_event(Key::Enter));
    assert!(matches!(action, Action::Nothing));
    assert_eq!(app.input_mode, InputMode::Reply);
    app.input_mode = InputMode::ComposeSubject;
    app.input_buffer = "Subj".to_string();
    handle_key(&mut app, key_event(Key::Enter));
    assert_eq!(app.input_mode, InputMode::ComposeBody);
    assert_eq!(app.compose_subject, "Subj");
}

#[test]
fn pointer_and_poll_timing() {
    assert_eq!(poll_timeout_ms(true), 100);
    assert_eq!(poll_timeout_ms(false), 60_000);
    let mut app = App::new();
    app.lang = shkolo::i18n::Lang::En;
    let area = (0u16, 3u16, 100u16, 40u16);
    let action = handle_mouse(&mut app, Pointer::Press, 1, 13, area, 3);
    assert!(matches!(action, Action::Nothing));
    assert_eq!(app.current_tab, Tab::Homework);
    app.drag_target = shkolo::app::DragTarget::StudentsPaneWidth;
    handle_mouse(&mut app, Pointer::Release, 10, 10, area, 3);
    assert_eq!(app.drag_target, shkolo::app::DragTarget::Idle);
}
