use vstd::prelude::*;

use crate::clock::{clock_date, date_of, now, plausible, shift_iso_date, shifted_iso_date, WallClock};
use crate::history::{pushed_cursor, pushed_entries, Location, NavHistory, MAX_HISTORY};
use crate::i18n::{Lang, T};
use crate::models::{
    Absence, Event, Feedback, Grade, Homework, Message, MessageThread, Notification, Recipient,
    ScheduleHour, Student,
};
use crate::text::{push_char, text_eq};

verus! {

/// Scroll offset that keeps `selected` near the middle of a window of
/// `visible_height` rows over `total_items` rows.
pub open spec fn scroll_for(selected: int, visible_height: int, total_items: int) -> int {
    if total_items == 0 || visible_height == 0 || total_items <= visible_height {
        0
    } else {
        let max_scroll = total_items - visible_height;
        let ideal = if selected >= visible_height / 2 {
            selected - visible_height / 2
        } else {
            0
        };
        if ideal < max_scroll {
            ideal
        } else {
            max_scroll
        }
    }
}

/// Scroll offset that keeps the selected item centred with margins: no
/// scrolling while everything fits, never past the last full window.
pub fn calculate_scroll(selected: usize, visible_height: usize, total_items: usize) -> (r: usize)
    ensures
        r == scroll_for(selected as int, visible_height as int, total_items as int),
{
    if total_items == 0 || visible_height == 0 {
        return 0;
    }
    if total_items <= visible_height {
        return 0;
    }
    let max_scroll = total_items - visible_height;
    let half = visible_height / 2;
    let ideal = if selected >= half {
        selected - half
    } else {
        0
    };
    if ideal < max_scroll {
        ideal
    } else {
        max_scroll
    }
}

/// How often data is refreshed automatically.
#[derive(Debug, Clone, Copy, PartialEq, Eq, Structural)]
pub enum AutoRefreshInterval {
    Off,
    Min1,
    Min5,
    Min10,
    Min30,
    Min60,
}

impl Default for AutoRefreshInterval {
    fn default() -> (r: Self)
        ensures
            r == AutoRefreshInterval::Min10,
    {
        AutoRefreshInterval::Min10
    }
}

/// The interval after `i` in the cycle Off, 1, 5, 10, 30, 60, Off.
pub open spec fn following_interval(i: AutoRefreshInterval) -> AutoRefreshInterval {
    match i {
        AutoRefreshInterval::Off => AutoRefreshInterval::Min1,
        AutoRefreshInterval::Min1 => AutoRefreshInterval::Min5,
        AutoRefreshInterval::Min5 => AutoRefreshInterval::Min10,
        AutoRefreshInterval::Min10 => AutoRefreshInterval::Min30,
        AutoRefreshInterval::Min30 => AutoRefreshInterval::Min60,
        AutoRefreshInterval::Min60 => AutoRefreshInterval::Off,
    }
}

impl AutoRefreshInterval {
    /// The interval in minutes; `None` when off.
    pub fn minutes(&self) -> (r: Option<u64>)
        ensures
            r == match *self {
                AutoRefreshInterval::Off => None,
                AutoRefreshInterval::Min1 => Some(1u64),
                AutoRefreshInterval::Min5 => Some(5u64),
                AutoRefreshInterval::Min10 => Some(10u64),
                AutoRefreshInterval::Min30 => Some(30u64),
                AutoRefreshInterval::Min60 => Some(60u64),
            },
    {
        match self {
            AutoRefreshInterval::Off => None,
            AutoRefreshInterval::Min1 => Some(1),
            AutoRefreshInterval::Min5 => Some(5),
            AutoRefreshInterval::Min10 => Some(10),
            AutoRefreshInterval::Min30 => Some(30),
            AutoRefreshInterval::Min60 => Some(60),
        }
    }

    /// Label shown in the settings tab.
    pub fn label(&self, lang: Lang) -> (r: &'static str)
        ensures
            r@ == match *self {
                AutoRefreshInterval::Off => match lang {
                    Lang::Bg => "Изкл."@,
                    Lang::En => "Off"@,
                },
                AutoRefreshInterval::Min1 => "1 min"@,
                AutoRefreshInterval::Min5 => "5 min"@,
                AutoRefreshInterval::Min10 => "10 min"@,
                AutoRefreshInterval::Min30 => "30 min"@,
                AutoRefreshInterval::Min60 => "60 min"@,
            },
    {
        match self {
            AutoRefreshInterval::Off => match lang {
                Lang::Bg => "Изкл.",
                Lang::En => "Off",
            },
            AutoRefreshInterval::Min1 => "1 min",
            AutoRefreshInterval::Min5 => "5 min",
            AutoRefreshInterval::Min10 => "10 min",
            AutoRefreshInterval::Min30 => "30 min",
            AutoRefreshInterval::Min60 => "60 min",
        }
    }

    /// The next interval in the cycle Off, 1, 5, 10, 30, 60, Off.
    pub fn next(&self) -> (r: Self)
        ensures
            r == following_interval(*self),
    {
        match self {
            AutoRefreshInterval::Off => AutoRefreshInterval::Min1,
            AutoRefreshInterval::Min1 => AutoRefreshInterval::Min5,
            AutoRefreshInterval::Min5 => AutoRefreshInterval::Min10,
            AutoRefreshInterval::Min10 => AutoRefreshInterval::Min30,
            AutoRefreshInterval::Min30 => AutoRefreshInterval::Min60,
            AutoRefreshInterval::Min60 => AutoRefreshInterval::Off,
        }
    }
}

/// Text entry mode.
#[derive(Debug, Clone, Copy, PartialEq, Eq, Structural)]
pub enum InputMode {
    Normal,
    Reply,
    ComposeSubject,
    ComposeBody,
}

/// What the messages tab shows.
#[derive(Debug, Clone, Copy, PartialEq, Eq, Structural)]
pub enum MessageView {
    List,
    Thread,
    Compose,
}

/// The tabs, in display order.
#[derive(Debug, Clone, Copy, PartialEq, Eq, Structural)]
pub enum Tab {
    Overview,
    Homework,
    Grades,
    Schedule,
    Absences,
    Feedbacks,
    Messages,
    Notifications,
    Settings,
}

/// Position of a tab in display order.
pub open spec fn tab_index(t: Tab) -> int {
    match t {
        Tab::Overview => 0,
        Tab::Homework => 1,
        Tab::Grades => 2,
        Tab::Schedule => 3,
        Tab::Absences => 4,
        Tab::Feedbacks => 5,
        Tab::Messages => 6,
        Tab::Notifications => 7,
        Tab::Settings => 8,
    }
}

/// The tab at a position in display order.
pub open spec fn tab_at(i: int) -> Tab {
    if i == 0 {
        Tab::Overview
    } else if i == 1 {
        Tab::Homework
    } else if i == 2 {
        Tab::Grades
    } else if i == 3 {
        Tab::Schedule
    } else if i == 4 {
        Tab::Absences
    } else if i == 5 {
        Tab::Feedbacks
    } else if i == 6 {
        Tab::Messages
    } else if i == 7 {
        Tab::Notifications
    } else {
        Tab::Settings
    }
}

/// Number of tabs.
pub const TAB_COUNT: usize = 9;

/// Label of a tab.
pub open spec fn tab_label(t: Tab, lang: Lang) -> Seq<char> {
    match (t, lang) {
        (Tab::Overview, Lang::Bg) => "Преглед"@,
        (Tab::Overview, Lang::En) => "Overview"@,
        (Tab::Homework, Lang::Bg) => "Домашни"@,
        (Tab::Homework, Lang::En) => "Homework"@,
        (Tab::Grades, Lang::Bg) => "Оценки"@,
        (Tab::Grades, Lang::En) => "Grades"@,
        (Tab::Schedule, Lang::Bg) => "Програма"@,
        (Tab::Schedule, Lang::En) => "Schedule"@,
        (Tab::Absences, Lang::Bg) => "Отсъствия"@,
        (Tab::Absences, Lang::En) => "Absences"@,
        (Tab::Feedbacks, Lang::Bg) => "Отзиви"@,
        (Tab::Feedbacks, Lang::En) => "Feedbacks"@,
        (Tab::Messages, Lang::Bg) => "Съобщения"@,
        (Tab::Messages, Lang::En) => "Messages"@,
        (Tab::Notifications, Lang::Bg) => "Известия"@,
        (Tab::Notifications, Lang::En) => "Notifications"@,
        (Tab::Settings, Lang::Bg) => "Настройки"@,
        (Tab::Settings, Lang::En) => "Settings"@,
    }
}

impl Tab {
    /// All tabs in display order.
    pub fn all() -> (r: Vec<Tab>)
        ensures
            r@.len() == TAB_COUNT,
            forall|i: int| 0 <= i < TAB_COUNT ==> #[trigger] r@[i] == tab_at(i),
    {
        let mut v: Vec<Tab> = Vec::new();
        v.push(Tab::Overview);
        v.push(Tab::Homework);
        v.push(Tab::Grades);
        v.push(Tab::Schedule);
        v.push(Tab::Absences);
        v.push(Tab::Feedbacks);
        v.push(Tab::Messages);
        v.push(Tab::Notifications);
        v.push(Tab::Settings);
        v
    }

    /// Display name of the tab.
    pub fn name(&self, lang: Lang) -> (r: &'static str)
        ensures
            r@ == tab_label(*self, lang),
    {
        match self {
            Tab::Overview => T::overview(lang),
            Tab::Homework => T::homework(lang),
            Tab::Grades => T::grades(lang),
            Tab::Schedule => T::schedule(lang),
            Tab::Absences => T::absences(lang),
            Tab::Feedbacks => T::feedbacks(lang),
            Tab::Messages => T::messages(lang),
            Tab::Notifications => T::notifications(lang),
            Tab::Settings => T::settings(lang),
        }
    }

    /// The following tab, wrapping from the last to the first.
    pub fn next(&self) -> (r: Tab)
        ensures
            r == tab_at((tab_index(*self) + 1) % 9),
    {
        match self {
            Tab::Overview => Tab::Homework,
            Tab::Homework => Tab::Grades,
            Tab::Grades => Tab::Schedule,
            Tab::Schedule => Tab::Absences,
            Tab::Absences => Tab::Feedbacks,
            Tab::Feedbacks => Tab::Messages,
            Tab::Messages => Tab::Notifications,
            Tab::Notifications => Tab::Settings,
            Tab::Settings => Tab::Overview,
        }
    }

    /// The preceding tab, wrapping from the first to the last.
    pub fn prev(&self) -> (r: Tab)
        ensures
            r == tab_at((tab_index(*self) + 8) % 9),
    {
        match self {
            Tab::Overview => Tab::Settings,
            Tab::Homework => Tab::Overview,
            Tab::Grades => Tab::Homework,
            Tab::Schedule => Tab::Grades,
            Tab::Absences => Tab::Schedule,
            Tab::Feedbacks => Tab::Absences,
            Tab::Messages => Tab::Feedbacks,
            Tab::Notifications => Tab::Messages,
            Tab::Settings => Tab::Notifications,
        }
    }
}

/// Which pane receives scrolling and selection.
#[derive(Debug, Clone, Copy, PartialEq, Eq, Structural)]
pub enum Focus {
    Students,
    Content,
    OverviewSchedule,
    OverviewHomework,
    OverviewGrades,
}

/// The border being dragged with the mouse.
#[derive(Debug, Clone, Copy, PartialEq, Eq, Structural)]
pub enum DragTarget {
    /// No border is latched.
    Idle,
    /// Vertical border between the students pane and the content.
    StudentsPaneWidth,
    /// Horizontal border between schedule and homework/grades on the overview.
    OverviewSplit,
    /// Horizontal border between homework and grades on the overview.
    OverviewBottomSplit,
}

impl Default for DragTarget {
    fn default() -> (r: Self)
        ensures
            r == DragTarget::Idle,
    {
        DragTarget::Idle
    }
}

/// What a click on a list row selected.
#[derive(Debug, Clone, Copy, PartialEq, Eq, Structural)]
pub enum ClickResult {
    Nothing,
    StudentSelected,
    ItemSelected(usize),
    ActivateNotification(usize),
    ActivateMessage(usize),
}

/// Everything shown for one student.
#[derive(Debug, Clone)]
pub struct StudentData {
    pub student: Student,
    pub homework: Vec<Homework>,
    pub grades: Vec<Grade>,
    pub schedule: Vec<ScheduleHour>,
    pub events: Vec<Event>,
    pub absences: Vec<Absence>,
    pub feedbacks: Vec<Feedback>,
    pub homework_age: Option<String>,
    pub grades_age: Option<String>,
    pub schedule_age: Option<String>,
    pub absences_age: Option<String>,
    pub feedbacks_age: Option<String>,
}

/// Number of grades recorded in both terms, over a list of subjects.
pub open spec fn grade_count(grades: Seq<Grade>) -> int
    decreases grades.len(),
{
    if grades.len() == 0 {
        0
    } else {
        grade_count(grades.drop_last()) + grades.last().term1_grades@.len()
            + grades.last().term2_grades@.len()
    }
}

proof fn lemma_grade_count_nonneg(grades: Seq<Grade>)
    ensures
        grade_count(grades) >= 0,
    decreases grades.len(),
{
    if grades.len() > 0 {
        lemma_grade_count_nonneg(grades.drop_last());
    }
}

impl StudentData {
    /// A student with no data loaded yet.
    pub fn new(student: Student) -> (r: Self)
        ensures
            r.student == student,
            r.homework@.len() == 0,
            r.grades@.len() == 0,
            r.schedule@.len() == 0,
            r.events@.len() == 0,
            r.absences@.len() == 0,
            r.feedbacks@.len() == 0,
            r.homework_age is None,
            r.grades_age is None,
            r.schedule_age is None,
            r.absences_age is None,
            r.feedbacks_age is None,
    {
        StudentData {
            student,
            homework: Vec::new(),
            grades: Vec::new(),
            schedule: Vec::new(),
            events: Vec::new(),
            absences: Vec::new(),
            feedbacks: Vec::new(),
            homework_age: None,
            grades_age: None,
            schedule_age: None,
            absences_age: None,
            feedbacks_age: None,
        }
    }

    /// Number of grades over all subjects and both terms (saturating).
    pub fn total_grades_count(&self) -> (r: usize)
        ensures
            r == if grade_count(self.grades@) <= usize::MAX {
                grade_count(self.grades@)
            } else {
                usize::MAX as int
            },
    {
        let mut total: usize = 0;
        let mut i: usize = 0;
        while i < self.grades.len()
            invariant
                i <= self.grades@.len(),
                total == if grade_count(self.grades@.subrange(0, i as int)) <= usize::MAX {
                    grade_count(self.grades@.subrange(0, i as int))
                } else {
                    usize::MAX as int
                },
            decreases self.grades@.len() - i,
        {
            let g = &self.grades[i];
            let add = g.term1_grades.len().saturating_add(g.term2_grades.len());
            total = total.saturating_add(add);
            proof {
                let s = self.grades@.subrange(0, i + 1);
                assert(s.drop_last() =~= self.grades@.subrange(0, i as int));
                lemma_grade_count_nonneg(self.grades@.subrange(0, i as int));
            }
            i += 1;
        }
        proof {
            assert(self.grades@.subrange(0, i as int) =~= self.grades@);
        }
        total
    }

    /// For each subject with term grades: its name and its grades, the
    /// second term's first.
    pub fn all_grades_summary(&self) -> (r: Vec<(String, Vec<String>)>)
        ensures
            r@.len() == summary_rows(self.grades@).len(),
            forall|k: int|
                0 <= k < r@.len() ==> (#[trigger] r@[k]).0@ == summary_rows(self.grades@)[k].0
                    && texts(r@[k].1@) == summary_rows(self.grades@)[k].1,
    {
        let mut out: Vec<(String, Vec<String>)> = Vec::new();
        let mut i: usize = 0;
        while i < self.grades.len()
            invariant
                i <= self.grades@.len(),
                out@.len() == summary_rows(self.grades@.subrange(0, i as int)).len(),
                forall|k: int|
                    0 <= k < out@.len() ==> (#[trigger] out@[k]).0@ == summary_rows(
                        self.grades@.subrange(0, i as int),
                    )[k].0 && texts(out@[k].1@) == summary_rows(self.grades@.subrange(0, i as int))[k].1,
            decreases self.grades@.len() - i,
        {
            proof {
                assert(self.grades@.subrange(0, i + 1).drop_last() =~= self.grades@.subrange(0, i as int));
            }
            let g = &self.grades[i];
            if !g.term1_grades.is_empty() || !g.term2_grades.is_empty() {
                let mut all: Vec<String> = Vec::new();
                let mut j: usize = 0;
                while j < g.term2_grades.len()
                    invariant
                        j <= g.term2_grades@.len(),
                        texts(all@) == texts(g.term2_grades@.subrange(0, j as int)),
                    decreases g.term2_grades@.len() - j,
                {
                    let ghost before = all@;
                    all.push(g.term2_grades[j].clone());
                    proof {
                        assert(all@ =~= before.push(g.term2_grades@[j as int]));
                        assert(g.term2_grades@.subrange(0, j + 1) =~= g.term2_grades@.subrange(0, j as int).push(g.term2_grades@[j as int]));
                        assert(texts(all@) =~= texts(before).push(g.term2_grades@[j as int]@));
                        assert(texts(g.term2_grades@.subrange(0, j + 1)) =~= texts(g.term2_grades@.subrange(0, j as int)).push(g.term2_grades@[j as int]@));
                    }
                    j += 1;
                }
                proof {
                    assert(g.term2_grades@.subrange(0, j as int) =~= g.term2_grades@);
                }
                let ghost second = texts(all@);
                let mut j: usize = 0;
                while j < g.term1_grades.len()
                    invariant
                        j <= g.term1_grades@.len(),
                        texts(all@) == second + texts(g.term1_grades@.subrange(0, j as int)),
                    decreases g.term1_grades@.len() - j,
                {
                    let ghost before = all@;
                    all.push(g.term1_grades[j].clone());
                    proof {
                        assert(all@ =~= before.push(g.term1_grades@[j as int]));
                        assert(g.term1_grades@.subrange(0, j + 1) =~= g.term1_grades@.subrange(0, j as int).push(g.term1_grades@[j as int]));
                        assert(texts(all@) =~= texts(before).push(g.term1_grades@[j as int]@));
                        assert(second + texts(g.term1_grades@.subrange(0, j + 1)) =~= (second + texts(g.term1_grades@.subrange(0, j as int))).push(g.term1_grades@[j as int]@));
                    }
                    j += 1;
                }
                proof {
                    assert(g.term1_grades@.subrange(0, j as int) =~= g.term1_grades@);
                }
                out.push((g.subject.clone(), all));
            }
            i += 1;
        }
        proof {
            assert(self.grades@.subrange(0, i as int) =~= self.grades@);
        }
        out
    }
}

/// The text of each string.
pub open spec fn texts(v: Seq<String>) -> Seq<Seq<char>> {
    v.map_values(|s: String| s@)
}

/// Rows of the grades summary: for each subject with term grades, its name
/// and its grades, the second term's before the first's.
pub open spec fn summary_rows(grades: Seq<Grade>) -> Seq<(Seq<char>, Seq<Seq<char>>)>
    decreases grades.len(),
{
    if grades.len() == 0 {
        Seq::empty()
    } else {
        let rest = summary_rows(grades.drop_last());
        let g = grades.last();
        if g.term1_grades@.len() > 0 || g.term2_grades@.len() > 0 {
            rest.push((g.subject@, texts(g.term2_grades@) + texts(g.term1_grades@)))
        } else {
            rest
        }
    }
}

/// Whether the students pane is shown: more than one student, on a tab
/// other than messages, notifications and settings.
pub open spec fn shows_students(tab: Tab, n_students: int) -> bool {
    !(tab is Notifications || tab is Settings || tab is Messages) && n_students > 1
}

/// The pane that gets focus on entering a tab.
pub open spec fn entry_focus(tab: Tab, students_pane: bool) -> Focus {
    match tab {
        Tab::Overview => if students_pane {
            Focus::Students
        } else {
            Focus::OverviewSchedule
        },
        Tab::Messages | Tab::Feedbacks | Tab::Settings => Focus::Content,
        _ => if students_pane {
            Focus::Students
        } else {
            Focus::Content
        },
    }
}

/// The pane after `focus` in the ring of panes that the tab offers.
pub open spec fn next_focus(tab: Tab, students_pane: bool, focus: Focus) -> Focus {
    match tab {
        Tab::Overview => if students_pane {
            match focus {
                Focus::Students => Focus::OverviewSchedule,
                Focus::OverviewSchedule => Focus::OverviewHomework,
                Focus::OverviewHomework => Focus::OverviewGrades,
                Focus::OverviewGrades => Focus::Students,
                _ => Focus::OverviewSchedule,
            }
        } else {
            match focus {
                Focus::OverviewSchedule => Focus::OverviewHomework,
                Focus::OverviewHomework => Focus::OverviewGrades,
                Focus::OverviewGrades => Focus::OverviewSchedule,
                _ => Focus::OverviewSchedule,
            }
        },
        _ => if students_pane {
            match focus {
                Focus::Students => Focus::Content,
                _ => Focus::Students,
            }
        } else {
            Focus::Content
        },
    }
}

/// `a - b`, or 0 when `b` is larger.
pub open spec fn minus_or_zero(a: int, b: int) -> int {
    if a >= b {
        a - b
    } else {
        0
    }
}

/// `v` limited to `[lo, hi]`.
pub open spec fn clamp(v: int, lo: int, hi: int) -> int {
    if v < lo {
        lo
    } else if v > hi {
        hi
    } else {
        v
    }
}

/// Rows from the top of a pane of `height` rows to a split at `percent`.
pub open spec fn split_rows(height: int, percent: int) -> int {
    height * percent / 100
}

fn split_offset(height: u64, percent: u16) -> (r: u64)
    requires
        height <= 0xffff,
    ensures
        r == split_rows(height as int, percent as int),
        r <= 0xffff * 0xffff,
{
    proof {
        assert(height * percent <= 0xffff * 0xffff) by (nonlinear_arith)
            requires
                height <= 0xffff,
                percent <= 0xffff,
        ;
    }
    height * percent as u64 / 100
}

/// The tab to open for a notification type, if any.
pub open spec fn notification_target(kind: Seq<char>) -> Option<Tab> {
    if kind == "new_homework"@ {
        Some(Tab::Homework)
    } else if kind == "new_grade"@ {
        Some(Tab::Grades)
    } else if kind == "new_absence"@ {
        Some(Tab::Absences)
    } else if kind == "new_feedback"@ || kind == "new_badge"@ {
        Some(Tab::Feedbacks)
    } else if kind == "new_event"@ || kind == "new_event_reminder"@ {
        Some(Tab::Schedule)
    } else if kind == "new_message"@ || kind == "new_thread_message"@ {
        Some(Tab::Messages)
    } else {
        None
    }
}

/// The tab whose label spans `column` on the tab bar, scanning from tab `i`
/// whose label starts at column `x`; each label is padded by one space on
/// each side and followed by a one-column separator.
pub open spec fn tab_at_column(lang: Lang, column: int, i: int, x: int) -> Option<Tab>
    decreases 9 - i,
{
    if i < 0 || i >= 9 {
        None
    } else {
        let w = tab_label(tab_at(i), lang).len() + 2;
        if x <= column < x + w {
            Some(tab_at(i))
        } else {
            tab_at_column(lang, column, i + 1, x + w + 1)
        }
    }
}

/// `s` with `c` inserted before position `p`.
pub open spec fn inserted(s: Seq<char>, p: int, c: char) -> Seq<char> {
    s.subrange(0, p).push(c) + s.subrange(p, s.len() as int)
}

/// `s` without the character at position `p`.
pub open spec fn removed(s: Seq<char>, p: int) -> Seq<char> {
    s.subrange(0, p) + s.subrange(p + 1, s.len() as int)
}

fn insert_char(s: &String, p: usize, c: char) -> (r: String)
    requires
        p <= s@.len(),
    ensures
        r@ == inserted(s@, p as int, c),
{
    let n = s.as_str().unicode_len();
    let mut out = s.as_str().substring_char(0, p).to_owned();
    push_char(&mut out, c);
    out.append(s.as_str().substring_char(p, n));
    out
}

fn remove_char(s: &String, p: usize) -> (r: String)
    requires
        p < s@.len(),
    ensures
        r@ == removed(s@, p as int),
{
    let n = s.as_str().unicode_len();
    let mut out = s.as_str().substring_char(0, p).to_owned();
    out.append(s.as_str().substring_char(p + 1, n));
    out
}

/// The whole interactive session.
pub struct App {
    pub running: bool,
    pub current_tab: Tab,
    pub focus: Focus,
    pub lang: Lang,
    pub user_name: Option<String>,
    pub students: Vec<StudentData>,
    pub selected_student: usize,
    pub list_offset: usize,
    pub schedule_offset: usize,
    pub homework_offset: usize,
    pub grades_offset: usize,
    pub notifications: Vec<Notification>,
    pub notifications_age: Option<String>,
    pub messages: Vec<MessageThread>,
    pub messages_age: Option<String>,
    pub status_message: Option<String>,
    pub error_message: Option<String>,
    pub loading: bool,
    pub last_refresh: Option<String>,
    pub current_date: String,
    pub schedule_date: String,
    pub current_time: (u8, u8),
    pub tick: usize,
    pub students_pane_width: u16,
    pub overview_split_percent: u16,
    pub overview_bottom_split_percent: u16,
    pub message_view: MessageView,
    pub selected_thread_id: Option<i64>,
    pub thread_messages: Vec<Message>,
    pub thread_offset: usize,
    pub input_mode: InputMode,
    pub input_buffer: String,
    pub input_cursor: usize,
    pub recipients: Vec<Recipient>,
    pub selected_recipients: Vec<i64>,
    pub compose_subject: String,
    pub compose_body: String,
    pub show_help: bool,
    pub drag_target: DragTarget,
    pub auto_refresh_interval: AutoRefreshInterval,
    pub nav_history: NavHistory,
}

/// Where the user is in `a`.
pub open spec fn location_of(a: App) -> Location {
    Location {
        tab: a.current_tab,
        message_view: a.message_view,
        selected_thread_id: a.selected_thread_id,
    }
}

/// The location `set_tab(t)` records.
pub open spec fn tab_location(t: Tab) -> Location {
    Location { tab: t, message_view: MessageView::List, selected_thread_id: None }
}

/// Items in the list that the current tab shows.
pub open spec fn list_length(a: App) -> int {
    let in_range = 0 <= a.selected_student < a.students@.len();
    let s = a.students@[a.selected_student as int];
    match a.current_tab {
        Tab::Notifications => a.notifications@.len() as int,
        Tab::Messages => a.messages@.len() as int,
        Tab::Homework => if in_range {
            s.homework@.len() as int
        } else {
            0
        },
        Tab::Grades => if in_range {
            s.grades@.len() as int
        } else {
            0
        },
        Tab::Schedule => if in_range {
            s.schedule@.len() as int
        } else {
            0
        },
        Tab::Absences => if in_range {
            s.absences@.len() as int
        } else {
            0
        },
        Tab::Feedbacks => if in_range {
            s.feedbacks@.len() as int
        } else {
            0
        },
        _ => 0,
    }
}

/// Items in the focused overview pane.
pub open spec fn overview_length(a: App) -> int {
    let in_range = 0 <= a.selected_student < a.students@.len();
    let s = a.students@[a.selected_student as int];
    if !in_range {
        0
    } else {
        match a.focus {
            Focus::OverviewSchedule => s.schedule@.len() as int,
            Focus::OverviewHomework => s.homework@.len() as int,
            Focus::OverviewGrades => s.grades@.len() as int,
            _ => 0,
        }
    }
}

/// One step down from `offset` in a list of `count` items.
pub open spec fn scrolled_down(offset: int, count: int) -> int {
    if offset < minus_or_zero(count, 1) {
        offset + 1
    } else {
        offset
    }
}

/// Pane widths and split percentages lie within their bounds.
pub open spec fn layout_in_bounds(a: App) -> bool {
    &&& 15 <= a.students_pane_width <= 60
    &&& 20 <= a.overview_split_percent <= 70
    &&& 30 <= a.overview_bottom_split_percent <= 80
}

/// The border a press at (row, column) grabs in `a`, given the content
/// rectangle (x, y, width, height).
pub open spec fn drag_hit(a: App, row: int, column: int, area: (u16, u16, u16, u16)) -> DragTarget {
    let (x, y, _w, h) = area;
    let border_x = x + a.students_pane_width;
    let pane = shows_students(a.current_tab, a.students@.len() as int);
    let main_row = y + split_rows(h as int, a.overview_split_percent as int);
    let bottom_height = minus_or_zero(h as int, minus_or_zero(main_row, y as int));
    let bottom_row = main_row + split_rows(bottom_height, a.overview_bottom_split_percent as int);
    let start_x = x + if pane {
        a.students_pane_width as int
    } else {
        0
    };
    if pane && minus_or_zero(border_x, 2) <= column <= border_x + 2 && y <= row < y + h {
        DragTarget::StudentsPaneWidth
    } else if a.current_tab is Overview && column > start_x && minus_or_zero(main_row, 2) <= row
        <= main_row + 2 {
        DragTarget::OverviewSplit
    } else if a.current_tab is Overview && column > start_x && minus_or_zero(bottom_row, 2) <= row
        <= bottom_row + 2 {
        DragTarget::OverviewBottomSplit
    } else {
        DragTarget::Idle
    }
}

/// `new` is `old` after the pointer moved to (row, column) with the content
/// rectangle `area`: the latched border follows the pointer, within its bounds.
#[verifier::opaque]
pub open spec fn dragged(old: App, row: u16, column: u16, area: (u16, u16, u16, u16), new: App) -> bool {
    let (x, y, _w, h) = area;
    let main_row = y + split_rows(h as int, old.overview_split_percent as int);
    let bottom = minus_or_zero(h as int, minus_or_zero(main_row, y as int));
    new == match old.drag_target {
        DragTarget::Idle => old,
        DragTarget::StudentsPaneWidth => App {
            students_pane_width: clamp(minus_or_zero(column as int, x as int), 15, 60)
                as u16,
            ..old
        },
        DragTarget::OverviewSplit => App {
            overview_split_percent: clamp(
                minus_or_zero(row as int, y as int) * 100 / (if h > 0 {
                    h as int
                } else {
                    1
                }),
                20,
                70,
            ) as u16,
            ..old
        },
        DragTarget::OverviewBottomSplit => App {
            overview_bottom_split_percent: clamp(
                minus_or_zero(row as int, main_row) * 100 / (if bottom > 0 {
                    bottom
                } else {
                    1
                }),
                30,
                80,
            ) as u16,
            ..old
        },
    }
}

/// What a click at an absolute row and column selects, as (result, focus,
/// selected student, list offset).
pub open spec fn click_outcome(
    a: App,
    row: int,
    header_offset: int,
    column: int,
    students_width: int,
    content_height: int,
) -> (ClickResult, Focus, usize, usize) {
    if row < header_offset + 1 {
        (ClickResult::Nothing, a.focus, a.selected_student, a.list_offset)
    } else {
        let rel = row - header_offset - 1;
        if column < students_width {
            if rel < a.students@.len() {
                (ClickResult::StudentSelected, Focus::Students, rel as usize, a.list_offset)
            } else {
                (ClickResult::Nothing, Focus::Students, a.selected_student, a.list_offset)
            }
        } else {
            let focus = if a.current_tab is Overview {
                let content_row = row - header_offset;
                let main_row = split_rows(content_height, a.overview_split_percent as int);
                if content_row < main_row {
                    Focus::OverviewSchedule
                } else {
                    let bottom = minus_or_zero(content_height, main_row);
                    let grades_start = main_row + split_rows(
                        bottom,
                        a.overview_bottom_split_percent as int,
                    );
                    if content_row < grades_start {
                        Focus::OverviewHomework
                    } else {
                        Focus::OverviewGrades
                    }
                }
            } else {
                Focus::Content
            };
            let index = a.list_offset + rel;
            let result = if index < list_length(a) {
                match a.current_tab {
                    Tab::Notifications => ClickResult::ActivateNotification(index as usize),
                    Tab::Messages => if a.message_view is List {
                        ClickResult::ActivateMessage(index as usize)
                    } else {
                        ClickResult::Nothing
                    },
                    _ => ClickResult::ItemSelected(index as usize),
                }
            } else {
                ClickResult::Nothing
            };
            (result, focus, a.selected_student, a.list_offset)
        }
    }
}

impl App {
    /// The back/forward history, oldest first.
    pub open spec fn history(&self) -> Seq<Location> {
        self.nav_history.entries()
    }

    /// Index of the current entry of the history.
    pub open spec fn cursor(&self) -> int {
        self.nav_history.cursor()
    }

    /// `self` with its history replaced by that of `other`.
    pub open spec fn with_history_of(self, other: App) -> App {
        App { nav_history: other.nav_history, ..self }
    }

    /// The history is well formed: the cursor lies within it.
    pub open spec fn history_ok(&self) -> bool {
        &&& 0 <= self.cursor() < self.history().len()
        &&& self.history().len() <= MAX_HISTORY
    }

    /// `new` is `old` after moving to `loc` without recording it: tab, view
    /// and thread from `loc`, offsets reset, focus recomputed for the tab.
    pub open spec fn moved_to(old: App, loc: Location, new: App) -> bool {
        new.with_history_of(old) == (App {
            current_tab: loc.tab,
            message_view: loc.message_view,
            selected_thread_id: loc.selected_thread_id,
            list_offset: 0,
            thread_offset: 0,
            focus: entry_focus(loc.tab, shows_students(loc.tab, old.students@.len() as int)),
            ..old
        })
    }

    /// `new` and `r` are what `go_back` gives from `old`: when there is an
    /// earlier entry, the cursor moves onto it and the session moves there.
    pub open spec fn went_back(old: App, new: App, r: bool) -> bool {
        &&& r == (old.cursor() > 0)
        &&& new.history() == old.history()
        &&& r ==> new.cursor() == old.cursor() - 1 && App::moved_to(
            old,
            old.history()[old.cursor() - 1],
            new,
        )
        &&& !r ==> new == old
    }

    /// `new` and `r` are what `go_forward` gives from `old`: when there is a
    /// later entry, the cursor moves onto it and the session moves there.
    pub open spec fn went_forward(old: App, new: App, r: bool) -> bool {
        &&& r == (old.cursor() + 1 < old.history().len())
        &&& new.history() == old.history()
        &&& r ==> new.cursor() == old.cursor() + 1 && App::moved_to(
            old,
            old.history()[old.cursor() + 1],
            new,
        )
        &&& !r ==> new == old
    }

    /// `new` is `old` after `set_tab(t)`.
    pub open spec fn tab_set(old: App, t: Tab, new: App) -> bool {
        &&& new.with_history_of(old) == (App {
            current_tab: t,
            message_view: MessageView::List,
            selected_thread_id: None,
            list_offset: 0,
            focus: entry_focus(t, shows_students(t, old.students@.len() as int)),
            ..old
        })
        &&& new.history() == pushed_entries(old.history(), old.cursor(), tab_location(t))
        &&& new.cursor() == pushed_cursor(old.history(), old.cursor(), tab_location(t))
    }

    /// A session in its initial state, dated from the clock.
    pub fn new() -> (r: Self)
        ensures
            r.running,
            r.current_tab == Tab::Overview,
            r.focus == Focus::Students,
            r.lang == Lang::Bg,
            r.students@.len() == 0,
            r.selected_student == 0,
            r.list_offset == 0,
            r.schedule_offset == 0,
            r.homework_offset == 0,
            r.grades_offset == 0,
            !r.loading,
            !r.show_help,
            r.schedule_date@ == r.current_date@,
            r.students_pane_width == 30,
            r.overview_split_percent == 40,
            r.overview_bottom_split_percent == 60,
            r.message_view == MessageView::List,
            r.selected_thread_id is None,
            r.input_mode == InputMode::Normal,
            r.input_buffer@.len() == 0,
            r.input_cursor == 0,
            r.drag_target == DragTarget::Idle,
            r.auto_refresh_interval == AutoRefreshInterval::Min10,
            r.history() == seq![tab_location(Tab::Overview)],
            r.cursor() == 0,
            layout_in_bounds(r),
            r.error_message is None,
            r.status_message is None,
            r.user_name is None,
            r.last_refresh is None,
            r.notifications@.len() == 0,
            r.notifications_age is None,
            r.messages@.len() == 0,
            r.messages_age is None,
            r.tick == 0,
            r.thread_messages@.len() == 0,
            r.thread_offset == 0,
            r.recipients@.len() == 0,
            r.selected_recipients@.len() == 0,
            r.compose_subject@.len() == 0,
            r.compose_body@.len() == 0,
            exists|c: WallClock|
                #![trigger clock_date(c)]
                plausible(c) && r.current_date@ == clock_date(c) && r.current_time == (c.hour, c.minute),
    {
        let clock = now();
        let today = date_of(clock);
        let r = App {
            running: true,
            current_tab: Tab::Overview,
            focus: Focus::Students,
            lang: Lang::Bg,
            user_name: None,
            students: Vec::new(),
            selected_student: 0,
            list_offset: 0,
            schedule_offset: 0,
            homework_offset: 0,
            grades_offset: 0,
            notifications: Vec::new(),
            notifications_age: None,
            messages: Vec::new(),
            messages_age: None,
            status_message: None,
            error_message: None,
            loading: false,
            last_refresh: None,
            current_date: today.clone(),
            schedule_date: today,
            current_time: (clock.hour, clock.minute),
            tick: 0,
            students_pane_width: 30,
            overview_split_percent: 40,
            overview_bottom_split_percent: 60,
            message_view: MessageView::List,
            selected_thread_id: None,
            thread_messages: Vec::new(),
            thread_offset: 0,
            input_mode: InputMode::Normal,
            input_buffer: String::new(),
            input_cursor: 0,
            recipients: Vec::new(),
            selected_recipients: Vec::new(),
            compose_subject: String::new(),
            compose_body: String::new(),
            show_help: false,
            drag_target: DragTarget::Idle,
            auto_refresh_interval: AutoRefreshInterval::Min10,
            nav_history: NavHistory::new(
                Location {
                    tab: Tab::Overview,
                    message_view: MessageView::List,
                    selected_thread_id: None,
                },
            ),
        };
        assert(plausible(clock) && r.current_date@ == clock_date(clock));
        r
    }

    /// Cycles the auto-refresh interval.
    pub fn next_auto_refresh(&mut self)
        ensures
            *final(self) == (App {
                auto_refresh_interval: following_interval(old(self).auto_refresh_interval),
                ..*old(self)
            }),
    {
        self.auto_refresh_interval = self.auto_refresh_interval.next();
    }

    /// Moves the viewed schedule date one day forward.
    pub fn schedule_next_day(&mut self)
        ensures
            *final(self) == (App {
                schedule_date: final(self).schedule_date,
                ..*old(self)
            }),
            final(self).schedule_date@ == match shifted_iso_date(old(self).schedule_date@, true) {
                Some(d) => d,
                None => old(self).schedule_date@,
            },
    {
        if let Some(d) = shift_iso_date(self.schedule_date.as_str(), true) {
            self.schedule_date = d;
        }
    }

    /// Moves the viewed schedule date one day back.
    pub fn schedule_prev_day(&mut self)
        ensures
            *final(self) == (App {
                schedule_date: final(self).schedule_date,
                ..*old(self)
            }),
            final(self).schedule_date@ == match shifted_iso_date(old(self).schedule_date@, false) {
                Some(d) => d,
                None => old(self).schedule_date@,
            },
    {
        if let Some(d) = shift_iso_date(self.schedule_date.as_str(), false) {
            self.schedule_date = d;
        }
    }

    /// The schedule back on today.
    pub open spec fn schedule_reset(old: App, new: App) -> bool {
        &&& new == (App { schedule_date: old.current_date, ..old })
    }

    /// Shows today's schedule again.
    pub fn schedule_today(&mut self)
        ensures
            App::schedule_reset(*old(self), *final(self)),
    {
        self.schedule_date = self.current_date.clone();
    }

    /// Whether the schedule shows today.
    pub fn is_schedule_today(&self) -> (r: bool)
        ensures
            r == (self.schedule_date@ == self.current_date@),
    {
        text_eq(self.schedule_date.as_str(), self.current_date.as_str())
    }

    /// Whether the students pane is shown.
    pub fn has_students_pane(&self) -> (r: bool)
        ensures
            r == shows_students(self.current_tab, self.students@.len() as int),
    {
        match self.current_tab {
            Tab::Notifications | Tab::Settings | Tab::Messages => false,
            _ => self.students.len() > 1,
        }
    }

    /// Width of the students pane, 0 when hidden.
    pub fn effective_students_width(&self) -> (r: u16)
        ensures
            r == if shows_students(self.current_tab, self.students@.len() as int) {
                self.students_pane_width
            } else {
                0
            },
    {
        if self.has_students_pane() {
            self.students_pane_width
        } else {
            0
        }
    }

    fn current_location(&self) -> (r: Location)
        ensures
            r == location_of(*self),
    {
        Location {
            tab: self.current_tab,
            message_view: self.message_view,
            selected_thread_id: self.selected_thread_id,
        }
    }

    fn push_location(&mut self, loc: Location)
        ensures
            final(self).with_history_of(*old(self)) == *old(self),
            final(self).history() == pushed_entries(old(self).history(), old(self).cursor(), loc),
            final(self).cursor() == pushed_cursor(old(self).history(), old(self).cursor(), loc),
            old(self).history_ok(),
            final(self).history_ok(),
    {
        self.nav_history.push(loc);
    }

    /// Whether there is an earlier location to go back to.
    pub fn can_go_back(&self) -> (r: bool)
        ensures
            r == (self.cursor() > 0),
            self.history_ok(),
    {
        self.nav_history.can_go_back()
    }

    /// Whether there is a later location to go forward to.
    pub fn can_go_forward(&self) -> (r: bool)
        ensures
            r == (self.cursor() + 1 < self.history().len()),
            self.history_ok(),
    {
        self.nav_history.can_go_forward()
    }

    /// Goes one step back in the history; reports whether it moved.
    pub fn go_back(&mut self) -> (r: bool)
        ensures
            old(self).history_ok(),
            final(self).history_ok(),
            App::went_back(*old(self), *final(self), r),
    {
        match self.nav_history.back() {
            Some(loc) => {
                self.apply_location(loc);
                true
            },
            None => false,
        }
    }

    /// Goes one step forward in the history; reports whether it moved.
    pub fn go_forward(&mut self) -> (r: bool)
        ensures
            old(self).history_ok(),
            final(self).history_ok(),
            App::went_forward(*old(self), *final(self), r),
    {
        match self.nav_history.forward() {
            Some(loc) => {
                self.apply_location(loc);
                true
            },
            None => false,
        }
    }

    fn apply_location(&mut self, loc: Location)
        ensures
            final(self).nav_history == old(self).nav_history,
            App::moved_to(*old(self), loc, *final(self)),
    {
        self.current_tab = loc.tab;
        self.message_view = loc.message_view;
        self.selected_thread_id = loc.selected_thread_id;
        self.list_offset = 0;
        self.thread_offset = 0;
        let pane = self.has_students_pane();
        self.focus = match loc.tab {
            Tab::Overview => if pane {
                Focus::Students
            } else {
                Focus::OverviewSchedule
            },
            Tab::Messages | Tab::Feedbacks | Tab::Settings => Focus::Content,
            _ => if pane {
                Focus::Students
            } else {
                Focus::Content
            },
        };
    }

    /// The students pane widened by `delta`, within 15 to 60.
    pub open spec fn pane_resized(old: App, delta: i16, new: App) -> bool {
        &&& new == (App {
            students_pane_width: clamp(
                old.students_pane_width + delta,
                15,
                60,
            ) as u16,
            ..old
        })
    }

    /// Widens or narrows the students pane, within 15 to 60 columns.
    pub fn resize_students_pane(&mut self, delta: i16)
        ensures
            App::pane_resized(*old(self), delta, *final(self)),
    {
        let w = self.students_pane_width as i32 + delta as i32;
        let w = if w < 15 {
            15
        } else if w > 60 {
            60
        } else {
            w
        };
        self.students_pane_width = w as u16;
    }

    /// The main overview split moved by `delta`, within 20% to 70%.
    pub open spec fn split_resized(old: App, delta: i16, new: App) -> bool {
        &&& new == (App {
            overview_split_percent: clamp(
                old.overview_split_percent + delta,
                20,
                70,
            ) as u16,
            ..old
        })
    }

    /// Moves the overview's main split, within 20% to 70%.
    pub fn resize_overview_split(&mut self, delta: i16)
        ensures
            App::split_resized(*old(self), delta, *final(self)),
    {
        let p = self.overview_split_percent as i32 + delta as i32;
        let p = if p < 20 {
            20
        } else if p > 70 {
            70
        } else {
            p
        };
        self.overview_split_percent = p as u16;
    }

    /// Latches the border near (row, column), if any, for dragging; reports
    /// whether one was latched.
    pub fn start_drag(&mut self, row: u16, column: u16, content_area: (u16, u16, u16, u16)) -> (r:
        bool)
        ensures
            *final(self) == (App {
                drag_target: drag_hit(*old(self), row as int, column as int, content_area),
                ..*old(self)
            }),
            r == !(final(self).drag_target is Idle),
    {
        let (x, y, _w, h) = content_area;
        let row = row as u64;
        let column = column as u64;
        let x = x as u64;
        let y = y as u64;
        let h = h as u64;
        let hit_zone: u64 = 2;
        let pane = self.has_students_pane();
        if pane {
            let border_x = x + self.students_pane_width as u64;
            let low = if border_x >= hit_zone {
                border_x - hit_zone
            } else {
                0
            };
            if column >= low && column <= border_x + hit_zone && row >= y && row < y + h {
                self.drag_target = DragTarget::StudentsPaneWidth;
                return true;
            }
        }
        if self.current_tab == Tab::Overview {
            let start_x = x + self.effective_students_width() as u64;
            if column > start_x {
                let main_row = y + split_offset(h, self.overview_split_percent);
                let low = if main_row >= hit_zone {
                    main_row - hit_zone
                } else {
                    0
                };
                if row >= low && row <= main_row + hit_zone {
                    self.drag_target = DragTarget::OverviewSplit;
                    return true;
                }
                let above = main_row - y;
                let bottom_height = if h >= above {
                    h - above
                } else {
                    0
                };
                let bottom_row = main_row + split_offset(
                    bottom_height,
                    self.overview_bottom_split_percent,
                );
                let low = if bottom_row >= hit_zone {
                    bottom_row - hit_zone
                } else {
                    0
                };
                if row >= low && row <= bottom_row + hit_zone {
                    self.drag_target = DragTarget::OverviewBottomSplit;
                    return true;
                }
            }
        }
        self.drag_target = DragTarget::Idle;
        false
    }

    /// Moves the latched border to follow the pointer, keeping the pane
    /// width within 15 to 60, the main split within 20% to 70% and the
    /// bottom split within 30% to 80%.
    pub fn update_drag(&mut self, row: u16, column: u16, content_area: (u16, u16, u16, u16))
        ensures
            dragged(*old(self), row, column, content_area, *final(self)),
            layout_in_bounds(*old(self)) ==> layout_in_bounds(*final(self)),
            old(self).drag_target is StudentsPaneWidth ==> 15 <= final(self).students_pane_width
                <= 60,
            old(self).drag_target is OverviewSplit ==> 20 <= final(self).overview_split_percent
                <= 70,
            old(self).drag_target is OverviewBottomSplit ==> 30
                <= final(self).overview_bottom_split_percent <= 80,
    {
        proof {
            reveal(dragged);
        }
        let (x, y, _w, h) = content_area;
        let row = row as u64;
        let column = column as u64;
        let x = x as u64;
        let y = y as u64;
        let h = h as u64;
        match self.drag_target {
            DragTarget::Idle => {},
            DragTarget::StudentsPaneWidth => {
                let rel = if column >= x {
                    column - x
                } else {
                    0
                };
                let w = if rel < 15 {
                    15
                } else if rel > 60 {
                    60
                } else {
                    rel
                };
                self.students_pane_width = w as u16;
            },
            DragTarget::OverviewSplit => {
                let rel = if row >= y {
                    row - y
                } else {
                    0
                };
                let height = if h > 0 {
                    h
                } else {
                    1
                };
                let p = rel * 100 / height;
                let p = if p < 20 {
                    20
                } else if p > 70 {
                    70
                } else {
                    p
                };
                self.overview_split_percent = p as u16;
            },
            DragTarget::OverviewBottomSplit => {
                let main_row = y + split_offset(h, self.overview_split_percent);
                let above = main_row - y;
                let bottom = if h >= above {
                    h - above
                } else {
                    0
                };
                let rel = if row >= main_row {
                    row - main_row
                } else {
                    0
                };
                let height = if bottom > 0 {
                    bottom
                } else {
                    1
                };
                let p = rel * 100 / height;
                let p = if p < 30 {
                    30
                } else if p > 80 {
                    80
                } else {
                    p
                };
                self.overview_bottom_split_percent = p as u16;
            },
        }
    }

    /// Releases the latched border.
    pub fn end_drag(&mut self)
        ensures
            *final(self) == (App { drag_target: DragTarget::Idle, ..*old(self) }),
    {
        self.drag_target = DragTarget::Idle;
    }

    /// Whether a border is latched.
    pub fn is_dragging(&self) -> (r: bool)
        ensures
            r == !(self.drag_target is Idle),
    {
        !matches!(self.drag_target, DragTarget::Idle)
    }

    /// Advances the animation frame counter, wrapping around.
    pub fn tick(&mut self)
        ensures
            *final(self) == (App {
                tick: if old(self).tick == usize::MAX {
                    0
                } else {
                    (old(self).tick + 1) as usize
                },
                ..*old(self)
            }),
    {
        if self.tick == usize::MAX {
            self.tick = 0;
        } else {
            self.tick = self.tick + 1;
        }
    }

    /// Reads the clock into `current_time`.
    pub fn update_time(&mut self)
        ensures
            *final(self) == (App { current_time: final(self).current_time, ..*old(self) }),
            final(self).current_time.0 < 24,
            final(self).current_time.1 < 60,
    {
        let clock = now();
        self.current_time = (clock.hour, clock.minute);
    }

    /// Ends the session.
    pub fn quit(&mut self)
        ensures
            *final(self) == (App { running: false, ..*old(self) }),
    {
        self.running = false;
    }

    /// Moves to the following tab.
    pub fn next_tab(&mut self)
        ensures
            App::tab_set(*old(self), tab_at((tab_index(old(self).current_tab) + 1) % 9), *final(self)),
    {
        let t = self.current_tab.next();
        self.set_tab(t);
    }

    /// Moves to the preceding tab.
    pub fn prev_tab(&mut self)
        ensures
            App::tab_set(*old(self), tab_at((tab_index(old(self).current_tab) + 8) % 9), *final(self)),
    {
        let t = self.current_tab.prev();
        self.set_tab(t);
    }

    /// Moves to `tab`: records it in the history, shows its list from the
    /// top, and focuses the pane the tab starts on.
    pub fn set_tab(&mut self, tab: Tab)
        ensures
            App::tab_set(*old(self), tab, *final(self)),
            old(self).history_ok(),
            final(self).history_ok(),
    {
        let loc = Location { tab, message_view: MessageView::List, selected_thread_id: None };
        self.push_location(loc);
        self.current_tab = tab;
        self.message_view = MessageView::List;
        self.selected_thread_id = None;
        self.list_offset = 0;
        let pane = self.has_students_pane();
        self.focus = match tab {
            Tab::Overview => if pane {
                Focus::Students
            } else {
                Focus::OverviewSchedule
            },
            Tab::Messages | Tab::Feedbacks | Tab::Settings => Focus::Content,
            _ => if pane {
                Focus::Students
            } else {
                Focus::Content
            },
        };
    }

    /// Moves to the tab at `index` in display order; other indices are ignored.
    pub fn select_tab(&mut self, index: usize)
        ensures
            index < TAB_COUNT ==> App::tab_set(*old(self), tab_at(index as int), *final(self)),
            index >= TAB_COUNT ==> *final(self) == *old(self),
    {
        let tabs = Tab::all();
        if index < tabs.len() {
            self.set_tab(tabs[index]);
        }
    }

    /// Moves to the tab whose label spans `column` on the tab bar; reports
    /// whether one did.
    pub fn click_tab(&mut self, column: u16) -> (r: bool)
        ensures
            r == tab_at_column(old(self).lang, column as int, 0, 1) is Some,
            match tab_at_column(old(self).lang, column as int, 0, 1) {
                Some(t) => App::tab_set(*old(self), t, *final(self)),
                None => *final(self) == *old(self),
            },
    {
        let tabs = Tab::all();
        let mut x: u64 = 1;
        let mut i: usize = 0;
        while i < tabs.len()
            invariant
                tabs@.len() == TAB_COUNT,
                forall|k: int| 0 <= k < TAB_COUNT ==> #[trigger] tabs@[k] == tab_at(k),
                i <= TAB_COUNT,
                x <= 1 + 400 * i,
                tab_at_column(self.lang, column as int, i as int, x as int) == tab_at_column(
                    self.lang,
                    column as int,
                    0,
                    1,
                ),
                *self == *old(self),
            decreases TAB_COUNT - i,
        {
            let tab = tabs[i];
            let name = tab.name(self.lang);
            proof {
                assert(tab_label(tab_at(i as int), self.lang).len() <= 20) by {
                    reveal_strlit("Преглед");
                    reveal_strlit("Overview");
                    reveal_strlit("Домашни");
                    reveal_strlit("Homework");
                    reveal_strlit("Оценки");
                    reveal_strlit("Grades");
                    reveal_strlit("Програма");
                    reveal_strlit("Schedule");
                    reveal_strlit("Отсъствия");
                    reveal_strlit("Absences");
                    reveal_strlit("Отзиви");
                    reveal_strlit("Feedbacks");
                    reveal_strlit("Съобщения");
                    reveal_strlit("Messages");
                    reveal_strlit("Известия");
                    reveal_strlit("Notifications");
                    reveal_strlit("Настройки");
                    reveal_strlit("Settings");
                }
            }
            let width = name.unicode_len() as u64 + 2;
            if column as u64 >= x && (column as u64) < x + width {
                self.set_tab(tab);
                return true;
            }
            x = x + width + 1;
            i += 1;
        }
        false
    }

    /// Routes a click on a list row. A click in the students pane selects
    /// that student; a click in the content focuses the pane under it and
    /// reports the item at `list_offset` plus the row within the list. The
    /// scroll position never changes.
    pub fn click_list_item(
        &mut self,
        row: u16,
        header_offset: u16,
        column: u16,
        students_width: u16,
        content_height: u16,
    ) -> (r: ClickResult)
        ensures
            ({
                let (res, focus, selected, offset) = click_outcome(
                    *old(self),
                    row as int,
                    header_offset as int,
                    column as int,
                    students_width as int,
                    content_height as int,
                );
                &&& r == res
                &&& *final(self) == (App {
                    focus: focus,
                    selected_student: selected,
                    list_offset: offset,
                    ..*old(self)
                })
            }),
    {
        let row = row as u64;
        let header = header_offset as u64;
        if row < header + 1 {
            return ClickResult::Nothing;
        }
        let rel = row - header - 1;
        if (column as u64) < students_width as u64 {
            self.focus = Focus::Students;
            if rel < self.students.len() as u64 {
                self.selected_student = rel as usize;
                return ClickResult::StudentSelected;
            }
            return ClickResult::Nothing;
        }
        if self.current_tab == Tab::Overview {
            let content_row = row - header;
            let h = content_height as u64;
            let main_row = split_offset(h, self.overview_split_percent);
            if content_row < main_row {
                self.focus = Focus::OverviewSchedule;
            } else {
                let bottom = if h >= main_row {
                    h - main_row
                } else {
                    0
                };
                let grades_start = main_row + split_offset(bottom, self.overview_bottom_split_percent);
                if content_row < grades_start {
                    self.focus = Focus::OverviewHomework;
                } else {
                    self.focus = Focus::OverviewGrades;
                }
            }
        } else {
            self.focus = Focus::Content;
        }
        let len = self.current_list_length() as u64;
        let offset = self.list_offset as u64;
        if rel < len && offset < len - rel {
            let index = (offset + rel) as usize;
            return match self.current_tab {
                Tab::Notifications => ClickResult::ActivateNotification(index),
                Tab::Messages => if self.message_view == MessageView::List {
                    ClickResult::ActivateMessage(index)
                } else {
                    ClickResult::Nothing
                },
                _ => ClickResult::ItemSelected(index),
            };
        }
        ClickResult::Nothing
    }

    /// Moves focus to the next pane of the current tab's ring and scrolls
    /// the list back to the top.
    pub fn toggle_focus(&mut self)
        ensures
            *final(self) == (App {
                focus: next_focus(
                    old(self).current_tab,
                    shows_students(old(self).current_tab, old(self).students@.len() as int),
                    old(self).focus,
                ),
                list_offset: 0,
                ..*old(self)
            }),
    {
        let pane = self.has_students_pane();
        self.focus = match self.current_tab {
            Tab::Overview => if pane {
                match self.focus {
                    Focus::Students => Focus::OverviewSchedule,
                    Focus::OverviewSchedule => Focus::OverviewHomework,
                    Focus::OverviewHomework => Focus::OverviewGrades,
                    Focus::OverviewGrades => Focus::Students,
                    _ => Focus::OverviewSchedule,
                }
            } else {
                match self.focus {
                    Focus::OverviewSchedule => Focus::OverviewHomework,
                    Focus::OverviewHomework => Focus::OverviewGrades,
                    Focus::OverviewGrades => Focus::OverviewSchedule,
                    _ => Focus::OverviewSchedule,
                }
            },
            _ => if pane {
                match self.focus {
                    Focus::Students => Focus::Content,
                    _ => Focus::Students,
                }
            } else {
                Focus::Content
            },
        };
        self.list_offset = 0;
    }

    /// The next student selected, wrapping around.
    pub open spec fn student_advanced(old: App, new: App) -> bool {
        &&& old.students@.len() == 0 ==> new == old
        &&& old.students@.len() > 0 ==> new == (App {
            selected_student: ((old.selected_student + 1) % old.students@.len() as int) as usize,
            list_offset: 0,
            ..old
        })
    }

    /// Selects the next student, wrapping around.
    pub fn next_student(&mut self)
        ensures
            App::student_advanced(*old(self), *final(self)),
    {
        if !self.students.is_empty() {
            let n = self.students.len();
            self.selected_student = if self.selected_student >= n - 1 {
                (self.selected_student - (n - 1)) % n
            } else {
                self.selected_student + 1
            };
            proof {
                let s = old(self).selected_student as int;
                let m = n as int;
                if s >= m - 1 {
                    assert((s - (m - 1)) % m == (s + 1) % m) by {
                        vstd::arithmetic::div_mod::lemma_mod_add_multiples_vanish(s - (m - 1), m);
                    }
                } else {
                    vstd::arithmetic::div_mod::lemma_small_mod((s + 1) as nat, m as nat);
                }
            }
            self.list_offset = 0;
        }
    }

    /// The previous student selected, wrapping around.
    pub open spec fn student_retreated(old: App, new: App) -> bool {
        &&& old.students@.len() == 0 ==> new == old
        &&& old.students@.len() > 0 ==> new == (App {
            selected_student: if old.selected_student == 0 {
                (old.students@.len() - 1) as usize
            } else {
                (old.selected_student - 1) as usize
            },
            list_offset: 0,
            ..old
        })
    }

    /// Selects the previous student, wrapping around.
    pub fn prev_student(&mut self)
        ensures
            App::student_retreated(*old(self), *final(self)),
    {
        if !self.students.is_empty() {
            self.selected_student = if self.selected_student == 0 {
                self.students.len() - 1
            } else {
                self.selected_student - 1
            };
            self.list_offset = 0;
        }
    }

    /// Selects the student at `index`; other indices are ignored.
    pub fn select_student(&mut self, index: usize)
        ensures
            index < old(self).students@.len() ==> *final(self) == (App {
                selected_student: index,
                list_offset: 0,
                ..*old(self)
            }),
            index >= old(self).students@.len() ==> *final(self) == *old(self),
    {
        if index < self.students.len() {
            self.selected_student = index;
            self.list_offset = 0;
        }
    }

    /// Items in the list that the current tab shows.
    pub fn current_list_length(&self) -> (r: usize)
        ensures
            r == list_length(*self),
    {
        let in_range = self.selected_student < self.students.len();
        match self.current_tab {
            Tab::Notifications => self.notifications.len(),
            Tab::Messages => self.messages.len(),
            Tab::Homework => if in_range {
                self.students[self.selected_student].homework.len()
            } else {
                0
            },
            Tab::Grades => if in_range {
                self.students[self.selected_student].grades.len()
            } else {
                0
            },
            Tab::Schedule => if in_range {
                self.students[self.selected_student].schedule.len()
            } else {
                0
            },
            Tab::Absences => if in_range {
                self.students[self.selected_student].absences.len()
            } else {
                0
            },
            Tab::Feedbacks => if in_range {
                self.students[self.selected_student].feedbacks.len()
            } else {
                0
            },
            _ => 0,
        }
    }

    fn overview_list_length(&self) -> (r: usize)
        ensures
            r == overview_length(*self),
    {
        if self.selected_student >= self.students.len() {
            return 0;
        }
        let s = &self.students[self.selected_student];
        match self.focus {
            Focus::OverviewSchedule => s.schedule.len(),
            Focus::OverviewHomework => s.homework.len(),
            Focus::OverviewGrades => s.grades.len(),
            _ => 0,
        }
    }

    /// The focused pane scrolled one item down, within its list.
    pub open spec fn pane_scrolled_down(old: App, new: App) -> bool {
        &&& new == match old.focus {
            Focus::OverviewSchedule => App {
                schedule_offset: scrolled_down(
                    old.schedule_offset as int,
                    overview_length(old),
                ) as usize,
                ..old
            },
            Focus::OverviewHomework => App {
                homework_offset: scrolled_down(
                    old.homework_offset as int,
                    overview_length(old),
                ) as usize,
                ..old
            },
            Focus::OverviewGrades => App {
                grades_offset: scrolled_down(
                    old.grades_offset as int,
                    overview_length(old),
                ) as usize,
                ..old
            },
            _ => App {
                list_offset: scrolled_down(
                    old.list_offset as int,
                    list_length(old),
                ) as usize,
                ..old
            },
        }
    }

    /// Scrolls the focused pane one item down, never past its last item.
    pub fn scroll_down(&mut self)
        ensures
            App::pane_scrolled_down(*old(self), *final(self)),
    {
        match self.focus {
            Focus::OverviewSchedule => {
                let n = self.overview_list_length();
                let max = if n > 0 {
                    n - 1
                } else {
                    0
                };
                if self.schedule_offset < max {
                    self.schedule_offset = self.schedule_offset + 1;
                }
            },
            Focus::OverviewHomework => {
                let n = self.overview_list_length();
                let max = if n > 0 {
                    n - 1
                } else {
                    0
                };
                if self.homework_offset < max {
                    self.homework_offset = self.homework_offset + 1;
                }
            },
            Focus::OverviewGrades => {
                let n = self.overview_list_length();
                let max = if n > 0 {
                    n - 1
                } else {
                    0
                };
                if self.grades_offset < max {
                    self.grades_offset = self.grades_offset + 1;
                }
            },
            _ => {
                let n = self.current_list_length();
                let max = if n > 0 {
                    n - 1
                } else {
                    0
                };
                if self.list_offset < max {
                    self.list_offset = self.list_offset + 1;
                }
            },
        }
    }

    /// The focused pane scrolled one item up, not above the first.
    pub open spec fn pane_scrolled_up(old: App, new: App) -> bool {
        &&& new == match old.focus {
            Focus::OverviewSchedule => App {
                schedule_offset: minus_or_zero(old.schedule_offset as int, 1) as usize,
                ..old
            },
            Focus::OverviewHomework => App {
                homework_offset: minus_or_zero(old.homework_offset as int, 1) as usize,
                ..old
            },
            Focus::OverviewGrades => App {
                grades_offset: minus_or_zero(old.grades_offset as int, 1) as usize,
                ..old
            },
            _ => App {
                list_offset: minus_or_zero(old.list_offset as int, 1) as usize,
                ..old
            },
        }
    }

    /// Scrolls the focused pane one item up, never above the first.
    pub fn scroll_up(&mut self)
        ensures
            App::pane_scrolled_up(*old(self), *final(self)),
    {
        match self.focus {
            Focus::OverviewSchedule => {
                if self.schedule_offset > 0 {
                    self.schedule_offset = self.schedule_offset - 1;
                }
            },
            Focus::OverviewHomework => {
                if self.homework_offset > 0 {
                    self.homework_offset = self.homework_offset - 1;
                }
            },
            Focus::OverviewGrades => {
                if self.grades_offset > 0 {
                    self.grades_offset = self.grades_offset - 1;
                }
            },
            _ => {
                if self.list_offset > 0 {
                    self.list_offset = self.list_offset - 1;
                }
            },
        }
    }

    /// Opens the thread at the list position.
    pub fn open_thread(&mut self) -> (r: Option<i64>)
        ensures
            App::thread_opened(*old(self), old(self).list_offset as int, *final(self), r),
    {
        let i = self.list_offset;
        self.open_thread_at(i)
    }

    /// `new` and `r` are what opening the thread at `index` gives from `old`:
    /// only from the message list, with `index` in range.
    pub open spec fn thread_opened(old: App, index: int, new: App, r: Option<i64>) -> bool {
        if old.current_tab is Messages && old.message_view is List && 0 <= index
            < old.messages@.len() {
            let id = old.messages@[index].id;
            let loc = Location {
                tab: Tab::Messages,
                message_view: MessageView::Thread,
                selected_thread_id: Some(id),
            };
            &&& r == Some(id)
            &&& new.with_history_of(old) == (App {
                selected_thread_id: Some(id),
                message_view: MessageView::Thread,
                thread_offset: 0,
                ..old
            })
            &&& new.history() == pushed_entries(old.history(), old.cursor(), loc)
            &&& new.cursor() == pushed_cursor(old.history(), old.cursor(), loc)
        } else {
            r is None && new == old
        }
    }

    /// Opens the thread at `index` of the message list, recording it in the
    /// history, and returns its id for loading.
    pub fn open_thread_at(&mut self, index: usize) -> (r: Option<i64>)
        ensures
            App::thread_opened(*old(self), index as int, *final(self), r),
    {
        if self.current_tab != Tab::Messages || self.message_view != MessageView::List {
            return None;
        }
        if index < self.messages.len() {
            let id = self.messages[index].id;
            let loc = Location {
                tab: Tab::Messages,
                message_view: MessageView::Thread,
                selected_thread_id: Some(id),
            };
            self.push_location(loc);
            self.selected_thread_id = Some(id);
            self.message_view = MessageView::Thread;
            self.thread_offset = 0;
            return Some(id);
        }
        None
    }

    /// The thread view left for the list.
    pub open spec fn thread_closed(old: App, new: App) -> bool {
        &&& new.with_history_of(old) == (App {
            message_view: MessageView::List,
            selected_thread_id: None,
            thread_messages: new.thread_messages,
            thread_offset: 0,
            input_mode: InputMode::Normal,
            input_buffer: new.input_buffer,
            ..old
        })
        &&& new.history() == old.history()
        &&& new.cursor() == old.cursor()
        &&& new.thread_messages@.len() == 0
        &&& new.input_buffer@.len() == 0
    }

    /// Leaves the thread view for the list, dropping the loaded messages
    /// and any typed text.
    pub fn close_thread(&mut self)
        ensures
            App::thread_closed(*old(self), *final(self)),
    {
        self.message_view = MessageView::List;
        self.selected_thread_id = None;
        self.thread_messages = Vec::new();
        self.thread_offset = 0;
        self.input_mode = InputMode::Normal;
        self.input_buffer = String::new();
    }

    /// Reply entry started, from an open thread only.
    pub open spec fn reply_started(old: App, new: App) -> bool {
        &&& old.message_view is Thread ==> new == (App {
            input_mode: InputMode::Reply,
            input_buffer: new.input_buffer,
            input_cursor: 0,
            ..old
        }) && new.input_buffer@.len() == 0
        &&& !(old.message_view is Thread) ==> new == old
    }

    /// Starts typing a reply; only from an open thread.
    pub fn start_reply(&mut self)
        ensures
            App::reply_started(*old(self), *final(self)),
    {
        if self.message_view == MessageView::Thread {
            self.input_mode = InputMode::Reply;
            self.input_buffer = String::new();
            self.input_cursor = 0;
        }
    }

    /// Text entry left, the typed text dropped.
    pub open spec fn input_cancelled(old: App, new: App) -> bool {
        &&& new == (App {
            input_mode: InputMode::Normal,
            input_buffer: new.input_buffer,
            input_cursor: 0,
            ..old
        })
        &&& new.input_buffer@.len() == 0
    }

    /// Leaves text entry, dropping the typed text.
    pub fn cancel_input(&mut self)
        ensures
            App::input_cancelled(*old(self), *final(self)),
    {
        self.input_mode = InputMode::Normal;
        self.input_buffer = String::new();
        self.input_cursor = 0;
    }

    /// Position at which typing acts: the cursor, or the end when the
    /// cursor lies past it.
    pub open spec fn edit_point(&self) -> int {
        if self.input_cursor <= self.input_buffer@.len() {
            self.input_cursor as int
        } else {
            self.input_buffer@.len() as int
        }
    }

    /// `c` inserted at the cursor.
    pub open spec fn char_typed(old: App, c: char, new: App) -> bool {
        &&& new == (App {
            input_buffer: new.input_buffer,
            input_cursor: (old.edit_point() + 1) as usize,
            ..old
        })
        &&& new.input_buffer@ == inserted(old.input_buffer@, old.edit_point(), c)
    }

    /// Inserts `c` at the cursor and moves the cursor past it.
    pub fn input_char(&mut self, c: char)
        requires
            old(self).input_buffer@.len() < usize::MAX,
        ensures
            App::char_typed(*old(self), c, *final(self)),
    {
        let n = self.input_buffer.as_str().unicode_len();
        let p = if self.input_cursor <= n {
            self.input_cursor
        } else {
            n
        };
        self.input_buffer = insert_char(&self.input_buffer, p, c);
        self.input_cursor = p + 1;
    }

    /// The character before the cursor deleted.
    pub open spec fn backspaced(old: App, new: App) -> bool {
        &&& old.input_cursor == 0 ==> new == old
        &&& old.input_cursor > 0 && old.input_cursor <= old.input_buffer@.len()
            ==> new == (App {
            input_buffer: new.input_buffer,
            input_cursor: (old.input_cursor - 1) as usize,
            ..old
        }) && new.input_buffer@ == removed(
            old.input_buffer@,
            old.input_cursor - 1,
        )
        &&& old.input_cursor > old.input_buffer@.len() ==> new == (App {
            input_cursor: (old.input_cursor - 1) as usize,
            ..old
        })
    }

    /// Deletes the character before the cursor.
    pub fn input_backspace(&mut self)
        ensures
            App::backspaced(*old(self), *final(self)),
    {
        if self.input_cursor > 0 {
            let n = self.input_buffer.as_str().unicode_len();
            if self.input_cursor <= n {
                let p = self.input_cursor - 1;
                self.input_buffer = remove_char(&self.input_buffer, p);
                self.input_cursor = p;
            } else {
                self.input_cursor = self.input_cursor - 1;
            }
        }
    }

    /// The character at the cursor deleted.
    pub open spec fn deleted_at_cursor(old: App, new: App) -> bool {
        &&& old.input_cursor < old.input_buffer@.len() ==> new == (App {
            input_buffer: new.input_buffer,
            ..old
        }) && new.input_buffer@ == removed(
            old.input_buffer@,
            old.input_cursor as int,
        )
        &&& old.input_cursor >= old.input_buffer@.len() ==> new == old
    }

    /// Deletes the character at the cursor.
    pub fn input_delete(&mut self)
        ensures
            App::deleted_at_cursor(*old(self), *final(self)),
    {
        let n = self.input_buffer.as_str().unicode_len();
        if self.input_cursor < n {
            self.input_buffer = remove_char(&self.input_buffer, self.input_cursor);
        }
    }

    /// The cursor one character left.
    pub open spec fn cursor_left(old: App, new: App) -> bool {
        &&& new == (App {
            input_cursor: minus_or_zero(old.input_cursor as int, 1) as usize,
            ..old
        })
    }

    /// Moves the cursor one character left.
    pub fn input_left(&mut self)
        ensures
            App::cursor_left(*old(self), *final(self)),
    {
        if self.input_cursor > 0 {
            self.input_cursor = self.input_cursor - 1;
        }
    }

    /// The cursor one character right, not past the end.
    pub open spec fn cursor_right(old: App, new: App) -> bool {
        &&& new == (App {
            input_cursor: if old.input_cursor < old.input_buffer@.len() {
                (old.input_cursor + 1) as usize
            } else {
                old.input_cursor
            },
            ..old
        })
    }

    /// Moves the cursor one character right, not past the end.
    pub fn input_right(&mut self)
        ensures
            App::cursor_right(*old(self), *final(self)),
    {
        let n = self.input_buffer.as_str().unicode_len();
        if self.input_cursor < n {
            self.input_cursor = self.input_cursor + 1;
        }
    }

    /// The typed text handed out and text entry left.
    pub open spec fn input_taken(old: App, new: App, r: String) -> bool {
        &&& r@ == old.input_buffer@
        &&& new == (App {
            input_buffer: new.input_buffer,
            input_cursor: 0,
            input_mode: InputMode::Normal,
            ..old
        })
        &&& new.input_buffer@.len() == 0
    }

    /// Returns the typed text and leaves text entry.
    pub fn take_input(&mut self) -> (r: String)
        ensures
            App::input_taken(*old(self), *final(self), r),
    {
        let input = self.input_buffer.clone();
        self.input_buffer = String::new();
        self.input_cursor = 0;
        self.input_mode = InputMode::Normal;
        input
    }

    /// The compose view opened with an empty draft.
    pub open spec fn compose_started(old: App, new: App) -> bool {
        &&& new == (App {
            message_view: MessageView::Compose,
            input_mode: InputMode::Normal,
            compose_subject: new.compose_subject,
            compose_body: new.compose_body,
            input_buffer: new.input_buffer,
            input_cursor: 0,
            selected_recipients: new.selected_recipients,
            list_offset: 0,
            ..old
        })
        &&& new.compose_subject@.len() == 0
        &&& new.compose_body@.len() == 0
        &&& new.input_buffer@.len() == 0
        &&& new.selected_recipients@.len() == 0
    }

    /// Opens the compose view with an empty draft and no recipients.
    pub fn start_compose(&mut self)
        ensures
            App::compose_started(*old(self), *final(self)),
    {
        self.message_view = MessageView::Compose;
        self.input_mode = InputMode::Normal;
        self.compose_subject = String::new();
        self.compose_body = String::new();
        self.input_buffer = String::new();
        self.input_cursor = 0;
        self.selected_recipients = Vec::new();
        self.list_offset = 0;
    }

    /// The draft dropped and the message list shown again.
    pub open spec fn compose_cancelled(old: App, new: App) -> bool {
        &&& new == (App {
            message_view: MessageView::List,
            input_mode: InputMode::Normal,
            compose_subject: new.compose_subject,
            compose_body: new.compose_body,
            input_buffer: new.input_buffer,
            input_cursor: 0,
            selected_recipients: new.selected_recipients,
            ..old
        })
        &&& new.compose_subject@.len() == 0
        &&& new.compose_body@.len() == 0
        &&& new.input_buffer@.len() == 0
        &&& new.selected_recipients@.len() == 0
    }

    /// Drops the draft and returns to the message list.
    pub fn cancel_compose(&mut self)
        ensures
            App::compose_cancelled(*old(self), *final(self)),
    {
        self.message_view = MessageView::List;
        self.input_mode = InputMode::Normal;
        self.compose_subject = String::new();
        self.compose_body = String::new();
        self.input_buffer = String::new();
        self.input_cursor = 0;
        self.selected_recipients = Vec::new();
    }

    /// From the subject, the subject kept and the body being typed; otherwise no change.
    pub open spec fn compose_advanced(old: App, new: App) -> bool {
        &&& old.input_mode is ComposeSubject ==> new == (App {
            compose_subject: old.input_buffer,
            input_buffer: old.compose_body,
            input_cursor: new.input_cursor,
            input_mode: InputMode::ComposeBody,
            ..old
        }) && new.input_cursor == old.compose_body@.len()
        &&& !(old.input_mode is ComposeSubject) ==> new == old
    }

    /// From the subject, keeps it and moves on to the body.
    pub fn compose_next_step(&mut self)
        ensures
            App::compose_advanced(*old(self), *final(self)),
    {
        match self.input_mode {
            InputMode::ComposeSubject => {
                self.compose_subject = self.input_buffer.clone();
                self.input_buffer = self.compose_body.clone();
                self.input_cursor = self.input_buffer.as_str().unicode_len();
                self.input_mode = InputMode::ComposeBody;
            },
            _ => {},
        }
    }

    /// From the body back to the subject, from the subject back to choosing recipients; otherwise no change.
    pub open spec fn compose_retreated(old: App, new: App) -> bool {
        &&& old.input_mode is ComposeBody ==> new == (App {
            compose_body: old.input_buffer,
            input_buffer: old.compose_subject,
            input_cursor: new.input_cursor,
            input_mode: InputMode::ComposeSubject,
            ..old
        }) && new.input_cursor == old.compose_subject@.len()
        &&& old.input_mode is ComposeSubject ==> new == (App {
            compose_subject: old.input_buffer,
            input_buffer: new.input_buffer,
            input_cursor: 0,
            input_mode: InputMode::Normal,
            ..old
        }) && new.input_buffer@.len() == 0
        &&& (old.input_mode is Normal || old.input_mode is Reply) ==> new
            == old
    }

    /// From the body, keeps it and goes back to the subject; from the
    /// subject, keeps it and goes back to choosing recipients.
    pub fn compose_prev_step(&mut self)
        ensures
            App::compose_retreated(*old(self), *final(self)),
    {
        match self.input_mode {
            InputMode::ComposeBody => {
                self.compose_body = self.input_buffer.clone();
                self.input_buffer = self.compose_subject.clone();
                self.input_cursor = self.input_buffer.as_str().unicode_len();
                self.input_mode = InputMode::ComposeSubject;
            },
            InputMode::ComposeSubject => {
                self.compose_subject = self.input_buffer.clone();
                self.input_buffer = String::new();
                self.input_cursor = 0;
                self.input_mode = InputMode::Normal;
            },
            _ => {},
        }
    }

    /// The recipient at `index` added to or removed from the selection.
    pub open spec fn recipient_toggled(old: App, index: usize, new: App) -> bool {
        &&& index >= old.recipients@.len() ==> new == old
        &&& index < old.recipients@.len() ==> new == (App {
            selected_recipients: new.selected_recipients,
            ..old
        }) && ({
            let id = old.recipients@[index as int].id;
            if old.selected_recipients@.contains(id) {
                new.selected_recipients@ == old.selected_recipients@.filter(
                    |x: i64| x != id,
                )
            } else {
                new.selected_recipients@ == old.selected_recipients@.push(id)
            }
        })
    }

    /// Adds the recipient at `index` to the selection, or removes it when
    /// already selected.
    pub fn toggle_recipient(&mut self, index: usize)
        ensures
            App::recipient_toggled(*old(self), index, *final(self)),
    {
        if index < self.recipients.len() {
            let id = self.recipients[index].id;
            let mut found = false;
            let mut kept: Vec<i64> = Vec::new();
            let mut i: usize = 0;
            while i < self.selected_recipients.len()
                invariant
                    i <= self.selected_recipients@.len(),
                    found == self.selected_recipients@.subrange(0, i as int).contains(id),
                    kept@ == self.selected_recipients@.subrange(0, i as int).filter(|x: i64| x != id),
                decreases self.selected_recipients@.len() - i,
            {
                let r = self.selected_recipients[i];
                proof {
                    let s = self.selected_recipients@.subrange(0, i + 1);
                    assert(s.drop_last() =~= self.selected_recipients@.subrange(0, i as int));
                    vstd::seq_lib::lemma_seq_contains_after_push(
                        self.selected_recipients@.subrange(0, i as int),
                        r,
                        id,
                    );
                    assert(s =~= self.selected_recipients@.subrange(0, i as int).push(r));
                    reveal(Seq::<i64>::filter);
                }
                if r == id {
                    found = true;
                } else {
                    kept.push(r);
                }
                i += 1;
            }
            proof {
                assert(self.selected_recipients@.subrange(0, i as int) =~= self.selected_recipients@);
            }
            if found {
                self.selected_recipients = kept;
            } else {
                self.selected_recipients.push(id);
            }
        }
    }

    /// Whether the draft can be sent: a subject, a body being typed, and at
    /// least one recipient.
    pub fn can_send_compose(&self) -> (r: bool)
        ensures
            r == (self.compose_subject@.len() > 0 && self.input_buffer@.len() > 0
                && self.selected_recipients@.len() > 0),
    {
        self.compose_subject.as_str().unicode_len() > 0 && self.input_buffer.as_str().unicode_len()
            > 0 && !self.selected_recipients.is_empty()
    }

    /// Opens the tab related to the notification at the list position.
    pub fn activate_notification(&mut self) -> (r: bool)
        ensures
            App::notification_activated(*old(self), old(self).list_offset as int, *final(self), r),
    {
        let i = self.list_offset;
        self.activate_notification_at(i)
    }

    /// `new` and `r` are what activating the notification at `index` gives.
    pub open spec fn notification_activated(old: App, index: int, new: App, r: bool) -> bool {
        let target = if old.current_tab is Notifications && 0 <= index < old.notifications@.len() {
            match old.notifications@[index].notification_type {
                Some(k) => notification_target(k@),
                None => None,
            }
        } else {
            None
        };
        match target {
            Some(t) => r && new == (App {
                current_tab: t,
                list_offset: 0,
                focus: Focus::Content,
                ..old
            }),
            None => !r && new == old,
        }
    }

    /// Opens the tab related to the notification at `index`: homework,
    /// grades, absences, feedback, schedule or messages, by its type.
    pub fn activate_notification_at(&mut self, index: usize) -> (r: bool)
        ensures
            App::notification_activated(*old(self), index as int, *final(self), r),
    {
        if self.current_tab != Tab::Notifications {
            return false;
        }
        if index >= self.notifications.len() {
            return false;
        }
        let target = match &self.notifications[index].notification_type {
            Some(k) => {
                let k = k.as_str();
                if text_eq(k, "new_homework") {
                    Some(Tab::Homework)
                } else if text_eq(k, "new_grade") {
                    Some(Tab::Grades)
                } else if text_eq(k, "new_absence") {
                    Some(Tab::Absences)
                } else if text_eq(k, "new_feedback") || text_eq(k, "new_badge") {
                    Some(Tab::Feedbacks)
                } else if text_eq(k, "new_event") || text_eq(k, "new_event_reminder") {
                    Some(Tab::Schedule)
                } else if text_eq(k, "new_message") || text_eq(k, "new_thread_message") {
                    Some(Tab::Messages)
                } else {
                    None
                }
            },
            None => None,
        };
        match target {
            Some(t) => {
                self.current_tab = t;
                self.list_offset = 0;
                self.focus = Focus::Content;
                true
            },
            None => false,
        }
    }

    /// The selected student's data, if the selection is valid.
    pub fn current_student(&self) -> (r: Option<&StudentData>)
        ensures
            self.selected_student < self.students@.len() ==> r == Some(
                &self.students@[self.selected_student as int],
            ),
            self.selected_student >= self.students@.len() ==> r is None,
    {
        if self.selected_student < self.students.len() {
            Some(&self.students[self.selected_student])
        } else {
            None
        }
    }

    /// Shows a status line.
    pub fn set_status(&mut self, message: &str)
        ensures
            *final(self) == (App { status_message: final(self).status_message, ..*old(self) }),
            final(self).status_message matches Some(m) && m@ == message@,
    {
        self.status_message = Some(message.to_owned());
    }

    /// Clears the status line.
    pub fn clear_status(&mut self)
        ensures
            *final(self) == (App { status_message: None, ..*old(self) }),
    {
        self.status_message = None;
    }

    /// Shows an error until the next key.
    pub fn set_error(&mut self, message: &str)
        ensures
            *final(self) == (App { error_message: final(self).error_message, ..*old(self) }),
            final(self).error_message matches Some(m) && m@ == message@,
    {
        self.error_message = Some(message.to_owned());
    }

    /// Clears the error.
    pub fn clear_error(&mut self)
        ensures
            *final(self) == (App { error_message: None, ..*old(self) }),
    {
        self.error_message = None;
    }

    /// Shows or hides the help overlay.
    pub fn toggle_help(&mut self)
        ensures
            *final(self) == (App { show_help: !old(self).show_help, ..*old(self) }),
    {
        self.show_help = !self.show_help;
    }
}

/// The entry at the cursor after a push is the pushed location.
proof fn lemma_pushed_current(entries: Seq<Location>, cursor: int, loc: Location)
    requires
        0 <= cursor < entries.len() <= MAX_HISTORY,
    ensures
        0 <= pushed_cursor(entries, cursor, loc) < pushed_entries(entries, cursor, loc).len()
            <= MAX_HISTORY,
        pushed_entries(entries, cursor, loc)[pushed_cursor(entries, cursor, loc)] == loc,
        entries[cursor] != loc ==> pushed_cursor(entries, cursor, loc) > 0,
{
}

/// Moving to a tab makes it current; going back becomes possible whenever
/// the tab's location differs from the history's current entry, and from
/// the start of the history exactly then.
pub proof fn law_set_tab(a0: App, t: Tab, a1: App)
    requires
        a0.history_ok(),
        App::tab_set(a0, t, a1),
    ensures
        a1.current_tab == t,
        a0.history()[a0.cursor()] != tab_location(t) ==> a1.cursor() > 0,
        a0.cursor() == 0 ==> (a1.cursor() > 0 <==> a0.history()[a0.cursor()] != tab_location(t)),
{
    lemma_pushed_current(a0.history(), a0.cursor(), tab_location(t));
    assert(a1.with_history_of(a0).current_tab == a1.current_tab);
}

/// Going back and then forward returns to the same location, history and
/// cursor, when the session stood at the history's current entry.
pub proof fn law_back_then_forward(a0: App, a1: App, a2: App)
    requires
        a0.history_ok(),
        a0.cursor() > 0,
        location_of(a0) == a0.history()[a0.cursor()],
        App::went_back(a0, a1, true),
        App::went_forward(a1, a2, true),
    ensures
        location_of(a2) == location_of(a0),
        a2.history() == a0.history(),
        a2.cursor() == a0.cursor(),
{
    let loc = a0.history()[a0.cursor()];
    assert(a2.with_history_of(a1).current_tab == a2.current_tab);
    assert(a2.with_history_of(a1).message_view == a2.message_view);
    assert(a2.with_history_of(a1).selected_thread_id == a2.selected_thread_id);
}

/// Recording the same location twice in a row leaves the history as the
/// first time left it.
pub proof fn law_push_same_twice(entries: Seq<Location>, cursor: int, loc: Location)
    requires
        0 <= cursor < entries.len() <= MAX_HISTORY,
    ensures
        ({
            let e1 = pushed_entries(entries, cursor, loc);
            let c1 = pushed_cursor(entries, cursor, loc);
            &&& pushed_entries(e1, c1, loc) == e1
            &&& pushed_entries(e1, c1, loc).len() == e1.len()
            &&& pushed_cursor(e1, c1, loc) == c1
        }),
{
    lemma_pushed_current(entries, cursor, loc);
}

/// One pointer move keeps a layout within bounds, and brings the moved
/// border within its bounds whatever it was before.
pub proof fn law_drag_step(old: App, row: u16, column: u16, area: (u16, u16, u16, u16), new: App)
    requires
        dragged(old, row, column, area, new),
    ensures
        layout_in_bounds(old) ==> layout_in_bounds(new),
        old.drag_target is StudentsPaneWidth ==> 15 <= new.students_pane_width <= 60,
        old.drag_target is OverviewSplit ==> 20 <= new.overview_split_percent <= 70,
        old.drag_target is OverviewBottomSplit ==> 30 <= new.overview_bottom_split_percent <= 80,
{
    reveal(dragged);
}

/// After any run of pointer moves from a layout within bounds, the pane
/// width, main split and bottom split are still within their bounds.
pub proof fn law_drag_bounds(apps: Seq<App>, moves: Seq<(u16, u16, (u16, u16, u16, u16))>)
    requires
        apps.len() == moves.len() + 1,
        layout_in_bounds(apps[0]),
        forall|i: int|
            0 <= i < moves.len() ==> dragged(
                #[trigger] apps[i],
                moves[i].0,
                moves[i].1,
                moves[i].2,
                apps[i + 1],
            ),
    ensures
        layout_in_bounds(apps.last()),
{
    lemma_drag_bounds_from(apps, moves, 0);
}

proof fn lemma_drag_bounds_from(apps: Seq<App>, moves: Seq<(u16, u16, (u16, u16, u16, u16))>, k: int)
    requires
        apps.len() == moves.len() + 1,
        0 <= k <= moves.len(),
        layout_in_bounds(apps[k]),
        forall|i: int|
            0 <= i < moves.len() ==> dragged(
                #[trigger] apps[i],
                moves[i].0,
                moves[i].1,
                moves[i].2,
                apps[i + 1],
            ),
    ensures
        layout_in_bounds(apps.last()),
    decreases moves.len() - k,
{
    if k < moves.len() {
        law_drag_step(apps[k], moves[k].0, moves[k].1, moves[k].2, apps[k + 1]);
        lemma_drag_bounds_from(apps, moves, k + 1);
    }
}

/// Scrolling down never passes the last item of a list and does nothing
/// on an empty one; scrolling up never goes below the first.
pub proof fn law_scroll_bounds(offset: int, count: int)
    requires
        0 <= offset,
        0 <= count,
    ensures
        offset <= minus_or_zero(count, 1) ==> scrolled_down(offset, count) <= minus_or_zero(count, 1),
        count == 0 ==> scrolled_down(offset, count) == offset,
        minus_or_zero(offset, 1) >= 0,
        offset == 0 ==> minus_or_zero(offset, 1) == 0,
{
}

/// No click changes the scroll position.
pub proof fn law_click_never_scrolls(
    a: App,
    row: int,
    header_offset: int,
    column: int,
    students_width: int,
    content_height: int,
)
    ensures
        click_outcome(a, row, header_offset, column, students_width, content_height).3
            == a.list_offset,
{
}

/// A click in the content pane keeps the scroll position, and the item it
/// reports is the one at the scroll position plus the row within the list.
pub proof fn law_click_keeps_offset(
    a: App,
    row: int,
    header_offset: int,
    column: int,
    students_width: int,
    content_height: int,
)
    requires
        column >= students_width,
        a.list_offset + (row - header_offset - 1) <= usize::MAX,
    ensures
        ({
            let (res, _focus, selected, offset) = click_outcome(
                a,
                row,
                header_offset,
                column,
                students_width,
                content_height,
            );
            let rel = row - header_offset - 1;
            &&& offset == a.list_offset
            &&& selected == a.selected_student
            &&& (res matches ClickResult::ItemSelected(i) ==> i == a.list_offset + rel)
            &&& (res matches ClickResult::ActivateNotification(i) ==> i == a.list_offset + rel)
            &&& (res matches ClickResult::ActivateMessage(i) ==> i == a.list_offset + rel)
        }),
{
}

} // verus!
