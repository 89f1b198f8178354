use vstd::prelude::*;

use crate::app::{
    following_interval, minus_or_zero, next_focus, scrolled_down, shows_students, tab_at,
    tab_index, App, Focus, InputMode, MessageView, Tab, TAB_COUNT,
};
use crate::clock::shifted_iso_date;
use crate::i18n::{Lang, T};

verus! {

/// A logical key, independent of the terminal library.
#[derive(Debug, Clone, Copy, PartialEq, Eq, Structural)]
pub enum Key {
    Char(char),
    Esc,
    Tab,
    BackTab,
    Left,
    Right,
    Up,
    Down,
    Enter,
    Backspace,
    Delete,
    Home,
    End,
    Other,
}

/// A key press with its modifiers.
#[derive(Debug, Clone, Copy, PartialEq, Eq, Structural)]
pub struct KeyPress {
    pub key: Key,
    pub ctrl: bool,
    pub shift: bool,
}

impl KeyPress {
    /// A press of `key` without modifiers.
    pub fn plain(key: Key) -> (r: Self)
        ensures
            r == (KeyPress { key, ctrl: false, shift: false }),
    {
        KeyPress { key, ctrl: false, shift: false }
    }
}

/// What the caller must do after a key: fetch, send, or nothing.
#[derive(Debug, Clone)]
pub enum Action {
    Nothing,
    Refresh,
    RefreshAll,
    RefreshSchedule,
    Logout,
    OpenThread(i64),
    CloseThread,
    SendReply(String),
    StartCompose,
    SendCompose { subject: String, body: String, recipients: Vec<i64> },
    NavigateBack,
    NavigateForward,
}

/// Whether `k` is the character `c`.
pub open spec fn is_char(k: KeyPress, c: char) -> bool {
    k.key == Key::Char(c)
}

/// Whether a key reaches the ordinary bindings of `a`: not the quit chord,
/// not help, no overlay or error to dismiss, no text being typed, and no
/// thread or draft open.
pub open spec fn ordinary(a: App, k: KeyPress) -> bool {
    &&& !(k.ctrl && is_char(k, 'c'))
    &&& !is_char(k, '?')
    &&& !a.show_help
    &&& a.error_message is None
    &&& a.input_mode is Normal
    &&& !(a.current_tab is Messages && (a.message_view is Thread || a.message_view is Compose))
}

/// Whether a key is one of the settings tab's own bindings.
pub open spec fn settings_key(k: KeyPress) -> bool {
    is_char(k, 'g') || is_char(k, 'G') || is_char(k, 'l') || is_char(k, 'L') || is_char(k, 'a')
        || is_char(k, 'A')
}

/// Whether a key reaches the text being typed: not the quit chord, not
/// help, no overlay or error to dismiss, and text entry active.
pub open spec fn typing(a: App, k: KeyPress) -> bool {
    &&& !(k.ctrl && is_char(k, 'c'))
    &&& !is_char(k, '?')
    &&& !a.show_help
    &&& a.error_message is None
    &&& !(a.input_mode is Normal)
}

/// The other display language.
pub open spec fn other_lang(l: Lang) -> Lang {
    match l {
        Lang::Bg => Lang::En,
        Lang::En => Lang::Bg,
    }
}

/// Whether a key gets past what is dismissed first: not the quit chord, not
/// the help key, and no help overlay or error on screen.
pub open spec fn undisturbed(a: App, k: KeyPress) -> bool {
    &&& !(k.ctrl && is_char(k, 'c'))
    &&& !is_char(k, '?')
    &&& !a.show_help
    &&& a.error_message is None
}

/// Whether a key goes to an open thread.
pub open spec fn reading(a: App, k: KeyPress) -> bool {
    undisturbed(a, k) && a.input_mode is Normal && a.current_tab is Messages
        && a.message_view is Thread
}

/// Whether a key goes to the choice of a draft's recipients.
pub open spec fn choosing(a: App, k: KeyPress) -> bool {
    undisturbed(a, k) && a.input_mode is Normal && a.current_tab is Messages
        && a.message_view is Compose
}

/// Whether the draft in `a` can be sent.
pub open spec fn sendable(a: App) -> bool {
    a.compose_subject@.len() > 0 && a.input_buffer@.len() > 0 && a.selected_recipients@.len() > 0
}

/// `new` and `r` are what a key gives while text is being typed.
pub open spec fn typed(old: App, k: KeyPress, new: App, r: Action) -> bool {
    if k.key == Key::Esc {
        r is Nothing && if old.input_mode is Reply {
            App::input_cancelled(old, new)
        } else if old.input_mode is ComposeSubject || old.input_mode is ComposeBody {
            App::compose_cancelled(old, new)
        } else {
            new == old
        }
    } else if k.key == Key::Tab || k.key == Key::BackTab {
        r is Nothing && if k.key == Key::BackTab || k.shift {
            App::compose_retreated(old, new)
        } else if old.input_mode is ComposeSubject {
            App::compose_advanced(old, new)
        } else if old.input_mode is ComposeBody {
            new == (App {
                compose_body: old.input_buffer,
                input_buffer: new.input_buffer,
                input_cursor: 0,
                input_mode: InputMode::Normal,
                ..old
            }) && new.input_buffer@.len() == 0
        } else {
            new == old
        }
    } else if k.key == Key::Enter {
        if old.input_mode is Reply {
            if old.input_buffer@.len() > 0 {
                r matches Action::SendReply(t) && App::input_taken(old, new, t)
            } else {
                r is Nothing && new == old
            }
        } else if old.input_mode is ComposeSubject {
            r is Nothing && App::compose_advanced(old, new)
        } else if old.input_mode is ComposeBody && sendable(old) {
            &&& r matches Action::SendCompose { subject, body, recipients } && subject@
                == old.compose_subject@ && body@ == old.input_buffer@ && recipients@
                == old.selected_recipients@
            &&& App::compose_cancelled(old, new)
        } else {
            r is Nothing && new == old
        }
    } else if k.key == Key::Backspace {
        r is Nothing && App::backspaced(old, new)
    } else if k.key == Key::Delete {
        r is Nothing && App::deleted_at_cursor(old, new)
    } else if k.key == Key::Left {
        r is Nothing && App::cursor_left(old, new)
    } else if k.key == Key::Right {
        r is Nothing && App::cursor_right(old, new)
    } else if k.key == Key::Home {
        r is Nothing && new == (App { input_cursor: 0, ..old })
    } else if k.key == Key::End {
        r is Nothing && new == (App { input_cursor: old.input_buffer@.len() as usize, ..old })
    } else if k.key is Char {
        r is Nothing && App::char_typed(old, k.key->Char_0, new)
    } else {
        r is Nothing && new == old
    }
}

/// `new` is what a key gives while a draft's recipients are chosen.
pub open spec fn picked(old: App, k: KeyPress, new: App) -> bool {
    if k.key == Key::Esc {
        App::compose_cancelled(old, new)
    } else if k.key == Key::Enter || is_char(k, ' ') {
        if old.input_mode is Normal {
            App::recipient_toggled(old, old.list_offset, new)
        } else {
            new == old
        }
    } else if is_char(k, 's') || is_char(k, 'S') {
        if old.selected_recipients@.len() > 0 {
            new == (App { input_mode: InputMode::ComposeSubject, ..old })
        } else {
            new == old
        }
    } else if k.key == Key::Tab {
        new == (App { input_mode: InputMode::ComposeSubject, ..old })
    } else if k.key == Key::BackTab {
        new == (App { input_mode: InputMode::ComposeBody, ..old })
    } else if k.key == Key::Down || is_char(k, 'j') {
        new == (App {
            list_offset: scrolled_down(old.list_offset as int, old.recipients@.len() as int) as usize,
            ..old
        })
    } else if k.key == Key::Up || is_char(k, 'k') {
        new == (App { list_offset: minus_or_zero(old.list_offset as int, 1) as usize, ..old })
    } else {
        new == old
    }
}

/// `new` and `r` are what a key gives while a thread is open.
pub open spec fn read_step(old: App, k: KeyPress, new: App, r: Action) -> bool {
    if k.key == Key::Esc || is_char(k, 'q') || k.key == Key::Backspace {
        r is CloseThread && if old.cursor() > 0 {
            App::went_back(old, new, true)
        } else {
            App::thread_closed(old, new)
        }
    } else if is_char(k, 'r') || is_char(k, 'R') {
        r is Nothing && App::reply_started(old, new)
    } else if k.key == Key::Down || is_char(k, 'j') {
        r is Nothing && new == (App {
            thread_offset: scrolled_down(
                old.thread_offset as int,
                old.thread_messages@.len() as int,
            ) as usize,
            ..old
        })
    } else if k.key == Key::Up || is_char(k, 'k') {
        r is Nothing && new == (App {
            thread_offset: minus_or_zero(old.thread_offset as int, 1) as usize,
            ..old
        })
    } else {
        r is Nothing && new == old
    }
}

/// The action after moving through the history: reload the thread when the
/// move landed on one.
pub open spec fn reload_after_move(old: App, new: App, r: Action) -> bool {
    if new.cursor() != old.cursor() && new.message_view is Thread && new.selected_thread_id is Some {
        r == Action::OpenThread(new.selected_thread_id->0)
    } else {
        r is Nothing
    }
}

/// The schedule date after moving a day forward or back, unchanged when it
/// is not a valid date.
pub open spec fn day_moved(old: App, forward: bool, new: App) -> bool {
    &&& new == (App { schedule_date: new.schedule_date, ..old })
    &&& new.schedule_date@ == match shifted_iso_date(old.schedule_date@, forward) {
        Some(d) => d,
        None => old.schedule_date@,
    }
}

fn copy_ids(v: &Vec<i64>) -> (r: Vec<i64>)
    ensures
        r@ == v@,
{
    let mut out: Vec<i64> = Vec::new();
    let mut i: usize = 0;
    while i < v.len()
        invariant
            i <= v@.len(),
            out@ == v@.subrange(0, i as int),
        decreases v@.len() - i,
    {
        out.push(v[i]);
        i += 1;
        assert(out@ =~= v@.subrange(0, i as int));
    }
    out
}

fn digit_tab(c: char) -> (r: Option<usize>)
    ensures
        ('1' <= c <= '9') ==> r == Some((c as u32 - '1' as u32) as usize),
        !('1' <= c <= '9') ==> r is None,
{
    if '1' <= c && c <= '9' {
        Some((c as u32 - '1' as u32) as usize)
    } else {
        None
    }
}

/// Applies a key press to the session and returns what the caller must do.
pub fn handle_key(app: &mut App, key: KeyPress) -> (r: Action)
    requires
        old(app).input_buffer@.len() < usize::MAX,
    ensures
        key.ctrl && is_char(key, 'c') ==> r is Nothing && *final(app) == (App {
            running: false,
            ..*old(app)
        }),
        !(key.ctrl && is_char(key, 'c')) && is_char(key, '?') ==> r is Nothing && *final(app) == (
        App { show_help: !old(app).show_help, ..*old(app) }),
        !(key.ctrl && is_char(key, 'c')) && !is_char(key, '?') && old(app).show_help ==> r is Nothing
            && *final(app) == (App { show_help: false, ..*old(app) }),
        !(key.ctrl && is_char(key, 'c')) && !is_char(key, '?') && !old(app).show_help && old(
            app,
        ).error_message is Some ==> r is Nothing && *final(app) == (App {
            error_message: None,
            ..*old(app)
        }),
        ordinary(*old(app), key) && is_char(key, 'r') && !(old(app).current_tab is Settings) ==> (
        if old(app).current_tab is Schedule {
            r is RefreshSchedule
        } else {
            r is Refresh
        }) && *final(app) == *old(app),
        ordinary(*old(app), key) && is_char(key, 'R') ==> r is RefreshAll && *final(app) == *old(
            app,
        ),
        ordinary(*old(app), key) && old(app).current_tab is Settings && (is_char(key, 'l')
            || is_char(key, 'L')) ==> r is Logout && *final(app) == *old(app),
        ordinary(*old(app), key) && !(old(app).current_tab is Settings && settings_key(key)) && (
        is_char(key, 'q') || key.key == Key::Esc) ==> r is Nothing && *final(app) == (App {
            running: false,
            ..*old(app)
        }),
        forall|c: char|
            ordinary(*old(app), key) && !(old(app).current_tab is Settings && settings_key(key))
                && #[trigger] is_char(key, c) && '1' <= c <= '9' ==> r is Nothing && App::tab_set(
                *old(app),
                tab_at(c as u32 - '1' as u32),
                *final(app),
            ),
        ordinary(*old(app), key) && key.key == Key::Backspace && !key.shift ==> App::went_back(
            *old(app),
            *final(app),
            final(app).cursor() != old(app).cursor(),
        ) && reload_after_move(*old(app), *final(app), r),
        ordinary(*old(app), key) && key.key == Key::Backspace && key.shift ==> App::went_forward(
            *old(app),
            *final(app),
            final(app).cursor() != old(app).cursor(),
        ) && reload_after_move(*old(app), *final(app), r),
        typing(*old(app), key) ==> typed(*old(app), key, *final(app), r),
        reading(*old(app), key) ==> read_step(*old(app), key, *final(app), r),
        choosing(*old(app), key) ==> r is Nothing && picked(*old(app), key, *final(app)),
        ordinary(*old(app), key) && (key.key == Key::Down || is_char(key, 'j')) ==> r is Nothing && (
        if old(app).focus is Students {
            App::student_advanced(*old(app), *final(app))
        } else {
            App::pane_scrolled_down(*old(app), *final(app))
        }),
        ordinary(*old(app), key) && (key.key == Key::Up || is_char(key, 'k')) ==> r is Nothing && (
        if old(app).focus is Students {
            App::student_retreated(*old(app), *final(app))
        } else {
            App::pane_scrolled_up(*old(app), *final(app))
        }),
        ordinary(*old(app), key) && is_char(key, '-') ==> r is Nothing && App::pane_resized(
            *old(app),
            -2i16,
            *final(app),
        ),
        ordinary(*old(app), key) && (is_char(key, '+') || is_char(key, '=')) ==> r is Nothing
            && App::pane_resized(*old(app), 2i16, *final(app)),
        ordinary(*old(app), key) && is_char(key, '<') ==> r is Nothing && if old(
            app,
        ).current_tab is Overview {
            App::split_resized(*old(app), -5i16, *final(app))
        } else {
            *final(app) == *old(app)
        },
        ordinary(*old(app), key) && is_char(key, '>') ==> r is Nothing && if old(
            app,
        ).current_tab is Overview {
            App::split_resized(*old(app), 5i16, *final(app))
        } else {
            *final(app) == *old(app)
        },
        ordinary(*old(app), key) && !(old(app).current_tab is Settings && settings_key(key))
            && key.key == Key::Tab ==> r is Nothing && *final(app) == (App {
            focus: next_focus(
                old(app).current_tab,
                shows_students(old(app).current_tab, old(app).students@.len() as int),
                old(app).focus,
            ),
            list_offset: 0,
            ..*old(app)
        }),
        ordinary(*old(app), key) && !(old(app).current_tab is Settings && settings_key(key)) && (
        key.key == Key::Left || is_char(key, 'h') || is_char(key, '[')) ==> r is Nothing
            && App::tab_set(*old(app), tab_at((tab_index(old(app).current_tab) + 8) % 9), *final(app)),
        ordinary(*old(app), key) && !(old(app).current_tab is Settings && settings_key(key)) && (
        key.key == Key::Right || is_char(key, 'l') || is_char(key, ']')) ==> r is Nothing
            && App::tab_set(*old(app), tab_at((tab_index(old(app).current_tab) + 1) % 9), *final(app)),
        ordinary(*old(app), key) && old(app).current_tab is Settings && (is_char(key, 'g')
            || is_char(key, 'G')) ==> r is Nothing && *final(app) == (App {
            lang: other_lang(old(app).lang),
            ..*old(app)
        }),
        ordinary(*old(app), key) && old(app).current_tab is Settings && (is_char(key, 'a')
            || is_char(key, 'A')) ==> r is Nothing && *final(app) == (App {
            auto_refresh_interval: following_interval(old(app).auto_refresh_interval),
            ..*old(app)
        }),
        ordinary(*old(app), key) && old(app).current_tab is Messages && key.key == Key::Enter
            ==> match r {
            Action::OpenThread(id) => App::thread_opened(
                *old(app),
                old(app).list_offset as int,
                *final(app),
                Some(id),
            ),
            _ => r is Nothing && App::thread_opened(
                *old(app),
                old(app).list_offset as int,
                *final(app),
                None,
            ),
        },
        ordinary(*old(app), key) && old(app).current_tab is Notifications && key.key == Key::Enter
            ==> r is Nothing && App::notification_activated(
            *old(app),
            old(app).list_offset as int,
            *final(app),
            *final(app) != *old(app),
        ),
        ordinary(*old(app), key) && old(app).current_tab is Messages && old(app).message_view is List
            && (is_char(key, 'c') || is_char(key, 'C')) ==> r is StartCompose && App::compose_started(
            *old(app),
            *final(app),
        ),
        ordinary(*old(app), key) && old(app).current_tab is Schedule && is_char(key, 'n') ==> r is RefreshSchedule
            && day_moved(*old(app), true, *final(app)),
        ordinary(*old(app), key) && old(app).current_tab is Schedule && is_char(key, 'p') ==> r is RefreshSchedule
            && day_moved(*old(app), false, *final(app)),
        ordinary(*old(app), key) && old(app).current_tab is Schedule && is_char(key, 't') ==> r is RefreshSchedule
            && App::schedule_reset(*old(app), *final(app)),
        r matches Action::SendReply(text) ==> text@ == old(app).input_buffer@ && text@.len() > 0,
        r matches Action::SendCompose { subject, body, recipients } ==> subject@ == old(
            app,
        ).compose_subject@ && body@ == old(app).input_buffer@ && recipients@ == old(
            app,
        ).selected_recipients@ && subject@.len() > 0 && body@.len() > 0 && recipients@.len() > 0,
{
    if key.ctrl && key.key == Key::Char('c') {
        app.quit();
        return Action::Nothing;
    }
    if key.key == Key::Char('?') {
        app.toggle_help();
        return Action::Nothing;
    }
    if app.show_help {
        app.show_help = false;
        return Action::Nothing;
    }
    if app.error_message.is_some() {
        app.clear_error();
        return Action::Nothing;
    }
    if app.input_mode != InputMode::Normal {
        return handle_input_mode(app, key);
    }
    if app.current_tab == Tab::Messages && app.message_view == MessageView::Thread {
        return handle_thread_view(app, key);
    }
    if app.current_tab == Tab::Messages && app.message_view == MessageView::Compose {
        return handle_compose_view(app, key);
    }
    if app.current_tab == Tab::Settings {
        match key.key {
            Key::Char('g') | Key::Char('G') => {
                app.lang = match app.lang {
                    Lang::Bg => Lang::En,
                    Lang::En => Lang::Bg,
                };
                return Action::Nothing;
            },
            Key::Char('l') | Key::Char('L') => {
                return Action::Logout;
            },
            Key::Char('a') | Key::Char('A') => {
                app.next_auto_refresh();
                return Action::Nothing;
            },
            _ => {},
        }
    }
    if let Key::Char(c) = key.key {
        if let Some(index) = digit_tab(c) {
            proof {
                assert(index < TAB_COUNT);
            }
            app.select_tab(index);
            return Action::Nothing;
        }
    }
    match key.key {
        Key::Char('q') | Key::Esc => {
            app.quit();
            Action::Nothing
        },
        Key::Tab => {
            app.toggle_focus();
            Action::Nothing
        },
        Key::Left | Key::Char('h') | Key::Char('[') => {
            app.prev_tab();
            Action::Nothing
        },
        Key::Right | Key::Char('l') | Key::Char(']') => {
            app.next_tab();
            Action::Nothing
        },
        Key::Down | Key::Char('j') => {
            match app.focus {
                Focus::Students => app.next_student(),
                _ => app.scroll_down(),
            }
            Action::Nothing
        },
        Key::Up | Key::Char('k') => {
            match app.focus {
                Focus::Students => app.prev_student(),
                _ => app.scroll_up(),
            }
            Action::Nothing
        },
        Key::Char('r') => {
            if app.current_tab == Tab::Schedule {
                Action::RefreshSchedule
            } else {
                Action::Refresh
            }
        },
        Key::Char('R') => Action::RefreshAll,
        Key::Char('-') => {
            app.resize_students_pane(-2);
            Action::Nothing
        },
        Key::Char('+') | Key::Char('=') => {
            app.resize_students_pane(2);
            Action::Nothing
        },
        Key::Char('<') => {
            if app.current_tab == Tab::Overview {
                app.resize_overview_split(-5);
            }
            Action::Nothing
        },
        Key::Char('>') => {
            if app.current_tab == Tab::Overview {
                app.resize_overview_split(5);
            }
            Action::Nothing
        },
        Key::Enter => {
            if app.current_tab == Tab::Notifications {
                app.activate_notification();
            } else if app.current_tab == Tab::Messages {
                if let Some(id) = app.open_thread() {
                    return Action::OpenThread(id);
                }
            }
            Action::Nothing
        },
        Key::Char('c') | Key::Char('C') => {
            if app.current_tab == Tab::Messages && app.message_view == MessageView::List {
                app.start_compose();
                return Action::StartCompose;
            }
            Action::Nothing
        },
        Key::Char('n') => {
            if app.current_tab == Tab::Schedule {
                app.schedule_next_day();
                return Action::RefreshSchedule;
            }
            Action::Nothing
        },
        Key::Char('p') => {
            if app.current_tab == Tab::Schedule {
                app.schedule_prev_day();
                return Action::RefreshSchedule;
            }
            Action::Nothing
        },
        Key::Char('t') => {
            if app.current_tab == Tab::Schedule {
                app.schedule_today();
                return Action::RefreshSchedule;
            }
            Action::Nothing
        },
        Key::Backspace => {
            let moved = if key.shift {
                app.go_forward()
            } else {
                app.go_back()
            };
            if moved && app.message_view == MessageView::Thread {
                if let Some(id) = app.selected_thread_id {
                    return Action::OpenThread(id);
                }
            }
            Action::Nothing
        },
        _ => Action::Nothing,
    }
}

/// Keys while text is being typed (a reply, or a draft's subject or body).
fn handle_input_mode(app: &mut App, key: KeyPress) -> (r: Action)
    requires
        old(app).input_buffer@.len() < usize::MAX,
        !(old(app).input_mode is Normal),
    ensures
        typed(*old(app), key, *final(app), r),
{
    match key.key {
        Key::Esc => {
            match app.input_mode {
                InputMode::Reply => app.cancel_input(),
                InputMode::ComposeSubject | InputMode::ComposeBody => app.cancel_compose(),
                _ => {},
            }
            Action::Nothing
        },
        Key::Tab | Key::BackTab => {
            let back = key.key == Key::BackTab || key.shift;
            if back {
                app.compose_prev_step();
            } else {
                match app.input_mode {
                    InputMode::ComposeSubject => app.compose_next_step(),
                    InputMode::ComposeBody => {
                        app.compose_prev_step();
                        app.compose_prev_step();
                    },
                    _ => {},
                }
            }
            Action::Nothing
        },
        Key::Enter => {
            match app.input_mode {
                InputMode::Reply => {
                    if app.input_buffer.as_str().unicode_len() > 0 {
                        let message = app.take_input();
                        return Action::SendReply(message);
                    }
                },
                InputMode::ComposeSubject => app.compose_next_step(),
                InputMode::ComposeBody => {
                    if app.can_send_compose() {
                        let subject = app.compose_subject.clone();
                        let body = app.input_buffer.clone();
                        let recipients = copy_ids(&app.selected_recipients);
                        app.cancel_compose();
                        return Action::SendCompose { subject, body, recipients };
                    }
                },
                _ => {},
            }
            Action::Nothing
        },
        Key::Backspace => {
            app.input_backspace();
            Action::Nothing
        },
        Key::Delete => {
            app.input_delete();
            Action::Nothing
        },
        Key::Left => {
            app.input_left();
            Action::Nothing
        },
        Key::Right => {
            app.input_right();
            Action::Nothing
        },
        Key::Home => {
            app.input_cursor = 0;
            Action::Nothing
        },
        Key::End => {
            app.input_cursor = app.input_buffer.as_str().unicode_len();
            Action::Nothing
        },
        Key::Char(c) => {
            app.input_char(c);
            Action::Nothing
        },
        _ => Action::Nothing,
    }
}

/// Keys while choosing a draft's recipients.
fn handle_compose_view(app: &mut App, key: KeyPress) -> (r: Action)
    ensures
        r is Nothing,
        picked(*old(app), key, *final(app)),
{
    match key.key {
        Key::Esc => {
            app.cancel_compose();
        },
        Key::Enter | Key::Char(' ') => {
            if app.input_mode == InputMode::Normal {
                let i = app.list_offset;
                app.toggle_recipient(i);
            }
        },
        Key::Char('s') | Key::Char('S') => {
            if !app.selected_recipients.is_empty() {
                app.input_mode = InputMode::ComposeSubject;
            }
        },
        Key::Tab => {
            app.input_mode = InputMode::ComposeSubject;
        },
        Key::BackTab => {
            app.input_mode = InputMode::ComposeBody;
        },
        Key::Down | Key::Char('j') => {
            let n = app.recipients.len();
            let max = if n > 0 {
                n - 1
            } else {
                0
            };
            if app.list_offset < max {
                app.list_offset = app.list_offset + 1;
            }
        },
        Key::Up | Key::Char('k') => {
            if app.list_offset > 0 {
                app.list_offset = app.list_offset - 1;
            }
        },
        _ => {},
    }
    Action::Nothing
}

/// Keys while reading a thread.
fn handle_thread_view(app: &mut App, key: KeyPress) -> (r: Action)
    ensures
        read_step(*old(app), key, *final(app), r),
{
    match key.key {
        Key::Esc | Key::Char('q') | Key::Backspace => {
            if !app.go_back() {
                app.close_thread();
            }
            Action::CloseThread
        },
        Key::Char('r') | Key::Char('R') => {
            app.start_reply();
            Action::Nothing
        },
        Key::Down | Key::Char('j') => {
            let n = app.thread_messages.len();
            let max = if n > 0 {
                n - 1
            } else {
                0
            };
            if app.thread_offset < max {
                app.thread_offset = app.thread_offset + 1;
            }
            Action::Nothing
        },
        Key::Up | Key::Char('k') => {
            if app.thread_offset > 0 {
                app.thread_offset = app.thread_offset - 1;
            }
            Action::Nothing
        },
        _ => Action::Nothing,
    }
}

/// How many bindings apply in `a`: help, then five for text entry (six on
/// a subject), three in a thread, four while choosing recipients, or eleven
/// common ones plus those of the tab.
pub open spec fn keybinding_count(a: App) -> int {
    if !(a.input_mode is Normal) {
        if a.input_mode is ComposeSubject {
            7
        } else {
            6
        }
    } else if a.current_tab is Messages && a.message_view is Thread {
        4
    } else if a.current_tab is Messages && a.message_view is Compose {
        5
    } else {
        12 + match a.current_tab {
            Tab::Overview => 1int,
            Tab::Schedule => 3,
            Tab::Notifications => 1,
            Tab::Messages => 2,
            Tab::Settings => 1,
            _ => 0,
        }
    }
}

/// The key bindings that apply in the session's current state, as
/// (keys, description) pairs; help comes first.
pub fn get_keybindings(app: &App) -> (r: Vec<(&'static str, &'static str)>)
    ensures
        r@.len() == keybinding_count(*app),
        r@[0].0@ == "?"@,
        r@[0].1@ == match app.lang {
            Lang::Bg => "Покажи/скрий помощ"@,
            Lang::En => "Show/hide help"@,
        },
{
    let lang = app.lang;
    let mut b: Vec<(&'static str, &'static str)> = Vec::new();
    b.push(("?", T::key_show_help(lang)));
    if app.input_mode != InputMode::Normal {
        b.push(("Esc", T::key_cancel_input(lang)));
        b.push(("Enter", T::key_submit(lang)));
        b.push(("Backspace", T::key_delete_char(lang)));
        b.push(("←/→", T::key_move_cursor(lang)));
        b.push(("Home/End", T::key_jump_start_end(lang)));
        if app.input_mode == InputMode::ComposeSubject {
            b.push(("Tab", T::key_move_to_body(lang)));
        }
        return b;
    }
    if app.current_tab == Tab::Messages && app.message_view == MessageView::Thread {
        b.push(("⌫/Esc/q", T::key_go_back(lang)));
        b.push(("r", T::key_reply(lang)));
        b.push(("↓/j ↑/k", T::key_scroll(lang)));
        return b;
    }
    if app.current_tab == Tab::Messages && app.message_view == MessageView::Compose {
        b.push(("Esc", T::key_cancel_compose(lang)));
        b.push(("↓/j ↑/k", T::key_navigate(lang)));
        b.push(("Enter/Space", T::key_toggle_recipient(lang)));
        b.push(("s", T::key_start_subject(lang)));
        return b;
    }
    b.push(("q/Esc/^C", T::key_quit(lang)));
    b.push(("←/h/[ →/l/]", T::key_switch_tabs(lang)));
    b.push(("Tab", T::key_toggle_focus(lang)));
    b.push(("↓/j ↑/k", T::key_navigate_scroll(lang)));
    b.push(("1-9", T::key_quick_select_tab(lang)));
    b.push(("r", T::key_refresh(lang)));
    b.push(("R", T::key_force_refresh(lang)));
    b.push(("G", T::key_toggle_lang(lang)));
    b.push(("-/+/=", T::key_resize_pane(lang)));
    b.push(("⌫", T::key_go_back(lang)));
    b.push(("⇧⌫", T::key_go_forward(lang)));
    match app.current_tab {
        Tab::Overview => {
            b.push(("</>", T::key_resize_split(lang)));
        },
        Tab::Schedule => {
            b.push(("p", T::key_prev_day(lang)));
            b.push(("n", T::key_next_day(lang)));
            b.push(("t", T::key_go_today(lang)));
        },
        Tab::Notifications => {
            b.push(("Enter", T::key_go_to_tab(lang)));
        },
        Tab::Messages => {
            b.push(("Enter", T::key_open_thread(lang)));
            b.push(("c", T::key_compose(lang)));
        },
        Tab::Settings => {
            b.push(("L", T::logout(lang)));
        },
        _ => {},
    }
    b
}

/// A pointer event, independent of the terminal library.
#[derive(Debug, Clone, Copy, PartialEq, Eq, Structural)]
pub enum Pointer {
    Press,
    Drag,
    Release,
    ScrollUp,
    ScrollDown,
    Other,
}

/// How long to wait for input: briefly while a refresh is outstanding, to
/// keep the spinner moving, and up to a minute when idle.
pub fn poll_timeout_ms(loading: bool) -> (r: u64)
    ensures
        r == if loading {
            100u64
        } else {
            60_000u64
        },
{
    if loading {
        100
    } else {
        60_000
    }
}

/// Applies a pointer event at (row, column), given the content rectangle
/// and the rows of the tab bar above it. A press on the tab bar selects a
/// tab; elsewhere it latches a border near it or else selects the row under
/// it, opening a notification's tab or a thread. Dragging moves the latched
/// border, releasing lets it go, and the wheel scrolls the focused pane.
pub fn handle_mouse(
    app: &mut App,
    event: Pointer,
    row: u16,
    column: u16,
    area: (u16, u16, u16, u16),
    header_height: u16,
) -> (r: Action)
    ensures
        event == Pointer::Release ==> r is Nothing && *final(app) == (App {
            drag_target: crate::app::DragTarget::Idle,
            ..*old(app)
        }),
        event == Pointer::Drag ==> r is Nothing && crate::app::dragged(
            *old(app),
            row,
            column,
            area,
            *final(app),
        ),
        event == Pointer::ScrollDown ==> r is Nothing && App::pane_scrolled_down(
            *old(app),
            *final(app),
        ),
        event == Pointer::ScrollUp ==> r is Nothing && App::pane_scrolled_up(*old(app), *final(app)),
        event == Pointer::Other ==> r is Nothing && *final(app) == *old(app),
        event == Pointer::Press && row < header_height ==> r is Nothing && match crate::app::tab_at_column(
            old(app).lang,
            column as int,
            0,
            1,
        ) {
            Some(t) => App::tab_set(*old(app), t, *final(app)),
            None => *final(app) == *old(app),
        },
        event == Pointer::Press && row >= header_height && !(crate::app::drag_hit(
            *old(app),
            row as int,
            column as int,
            area,
        ) is Idle) ==> r is Nothing && *final(app) == (App {
            drag_target: crate::app::drag_hit(*old(app), row as int, column as int, area),
            ..*old(app)
        }),
        r is Nothing || r is OpenThread,
        r matches Action::OpenThread(id) ==> final(app).selected_thread_id == Some(id)
            && final(app).message_view is Thread,
{
    match event {
        Pointer::Release => {
            app.end_drag();
            Action::Nothing
        },
        Pointer::Drag => {
            app.update_drag(row, column, area);
            Action::Nothing
        },
        Pointer::ScrollDown => {
            app.scroll_down();
            Action::Nothing
        },
        Pointer::ScrollUp => {
            app.scroll_up();
            Action::Nothing
        },
        Pointer::Other => Action::Nothing,
        Pointer::Press => {
            if row < header_height {
                app.click_tab(column);
                return Action::Nothing;
            }
            if app.start_drag(row, column, area) {
                return Action::Nothing;
            }
            let width = app.effective_students_width();
            let (_x, _y, _w, height) = area;
            match app.click_list_item(row, header_height, column, width, height) {
                crate::app::ClickResult::ActivateNotification(i) => {
                    app.activate_notification_at(i);
                    Action::Nothing
                },
                crate::app::ClickResult::ActivateMessage(i) => match app.open_thread_at(i) {
                    Some(id) => Action::OpenThread(id),
                    None => Action::Nothing,
                },
                _ => Action::Nothing,
            }
        },
    }
}

} // verus!
