use vstd::prelude::*;

use crate::text::{
    compare_text, copy_text, either_text, first_of, parse_i64, parse_u32, parse_i64_spec,
    parse_u32_spec, prefix, split3, split_head, split_three, split_two, take_chars, text_eq,
    text_less, text_of, text_or,
};

verus! {

/// `r` is the student built from roster key `id` and entry `pupil`.
pub open spec fn student_from(id: Seq<char>, pupil: ChildPupil, r: Student) -> bool {
    &&& r.id == match parse_i64_spec(id) {
        Some(v) => v,
        None => match pupil.target_id {
            Some(t) => t,
            None => 0,
        },
    }
    &&& r.name@ == text_of(pupil.target_name, "Unknown"@)
    &&& r.class_name == pupil.class_year_name
    &&& r.school_name == pupil.school_name
}

/// `r` is the homework entry built from `item` under `subject`.
pub open spec fn homework_from(item: HomeworkItem, subject: Seq<char>, r: Homework) -> bool {
    &&& r.id == item.id
    &&& r.subject@ == subject
    &&& r.text@ == text_of(item.homework_text, ""@)
    &&& r.date@ == text_of(item.shi_date, ""@)
    &&& r.due_date == item.homework_due_date
    &&& r.date_sort == item.shi_date_for_sort
    &&& match item.homework_due_date {
        Some(d) => match dashed_date(d@) {
            Some(x) => r.due_date_sort matches Some(v) && v@ == x,
            None => r.due_date_sort is None,
        },
        None => r.due_date_sort is None,
    }
}

/// `r` is the lesson built from `raw`.
pub open spec fn lesson_from(raw: ScheduleHourRaw, r: ScheduleHour) -> bool {
    &&& r.hour_number == match raw.school_hour {
        Some(h) => h,
        None => 0,
    }
    &&& r.from_time@ == text_of(raw.from_time, ""@)
    &&& r.to_time@ == text_of(raw.to_time, ""@)
    &&& r.subject@ == text_of(raw.course_name, "Unknown"@)
    &&& r.teacher == raw.teacher_name
    &&& r.topic == raw.topic
    &&& r.homework == raw.homework_text
    &&& r.room == raw.room_name
}

/// `r` is the event built from `raw`.
pub open spec fn event_from(raw: EventRaw, r: Event) -> bool {
    &&& r.id == raw.id
    &&& r.title@ == text_of(first_of(raw.title, raw.name), "Untitled"@)
    &&& r.description == raw.description
    &&& r.start_date@ == text_of(raw.start_date, ""@)
    &&& r.end_date == raw.end_date
    &&& r.event_type == raw.kind_name
    &&& r.is_test == (raw.event_type matches Some(t) && 12 <= t <= 15)
}

/// `r` is the notification built from `raw`.
pub open spec fn notification_from(raw: NotificationRaw, r: Notification) -> bool {
    &&& r.id == raw.id
    &&& r.title@ == text_of(first_of(raw.text, first_of(raw.title, raw.subject)), "No title"@)
    &&& r.body == first_of(raw.body, raw.message)
    &&& r.date@ == text_of(first_of(raw.created_at, raw.date), ""@)
    &&& r.is_read == (raw.seen_at is Some || raw.is_read == Some(true) || raw.read == Some(true))
    &&& r.notification_type == first_of(raw.notification_trigger_slug, raw.notification_type)
    &&& r.pupil_names is None
}

/// `r` is the absence built from `raw`.
pub open spec fn absence_from(raw: AbsenceRaw, r: Absence) -> bool {
    &&& r.id@ == text_of(raw.id, ""@)
    &&& r.date@ == text_of(raw.date, ""@)
    &&& r.date_sort@ == absence_sort_key(text_of(raw.date, ""@))
    &&& r.hour == match raw.school_hour {
        Some(h) => h,
        None => 0,
    }
    &&& r.subject@ == text_of(first_of(raw.course_short_name, raw.course_name), "Unknown"@)
    &&& r.is_excused == (raw.absence_excuse_type_id == Some(1i32))
    &&& r.excuse_reason == raw.absence_comment
    &&& r.created_by == raw.created_by
}

/// `r` is the feedback built from `raw`.
pub open spec fn feedback_from(raw: FeedbackRaw, r: Feedback) -> bool {
    &&& r.id == match raw.id {
        Some(i) => i,
        None => 0,
    }
    &&& r.badge_name@ == text_of(raw.badge_name, "Feedback"@)
    &&& r.badge_icon == raw.badge_icon
    &&& r.comment == raw.text
    &&& r.is_positive == match raw.badge_type_id {
        Some(t) => t == 1,
        None => true,
    }
    &&& r.date@ == text_of(raw.created_date, "N/A"@)
    &&& r.teacher@ == text_of(raw.created_by, ""@)
    &&& r.subject@ == text_of(first_of(raw.course_short_name, raw.course_name), ""@)
}

/// `r` is the message built from `raw`.
pub open spec fn message_from(raw: MessageRaw, r: Message) -> bool {
    &&& r.id == match raw.id {
        Some(i) => i,
        None => 0,
    }
    &&& r.body@ == text_of(raw.body, ""@)
    &&& r.sender_id == match raw.user_id {
        Some(i) => i,
        None => 0,
    }
    &&& r.sender_name@ == text_of(first_of(raw.user_names, raw.user_name), ""@)
    &&& r.date@ == match raw.created_at {
        Some(d) => message_date(d@),
        None => ""@,
    }
    &&& r.is_system == (raw.is_system == Some(true))
}

/// `r` is the recipient built from `raw`.
pub open spec fn recipient_from(raw: RecipientRaw, r: Recipient) -> bool {
    &&& r.id == match raw.id {
        Some(i) => i,
        None => 0,
    }
    &&& r.name@ == text_of(first_of(raw.names, raw.name), ""@)
    &&& r.recipient_type@ == text_of(raw.recipient_type, ""@)
}

/// `r` is the thread built from `raw`.
pub open spec fn thread_from(raw: MessageThreadRaw, r: MessageThread) -> bool {
    &&& r.id == match raw.id {
        Some(i) => i,
        None => 0,
    }
    &&& r.subject@ == text_of(raw.subject, ""@)
    &&& r.last_message@ == text_of(raw.last_msg_body, ""@)
    &&& r.last_sender@ == text_of(raw.last_msg_user, ""@)
    &&& r.participant_count == match raw.participant_count {
        Some(c) => c,
        None => 0,
    }
    &&& r.is_unread == (raw.is_unread == Some(true))
    &&& r.updated_at@ == text_of(raw.updated_at, ""@)
    &&& r.creator@ == text_of(raw.thread_creator, ""@)
}


// ---------------------------------------------------------------------
// Students
// ---------------------------------------------------------------------

/// A student linked to the signed-in account.
#[derive(Debug, Clone)]
pub struct Student {
    pub id: i64,
    pub name: String,
    pub class_name: Option<String>,
    pub school_name: Option<String>,
}

/// A student as the roster payload describes it.
#[derive(Debug, Clone)]
pub struct ChildPupil {
    pub target_id: Option<i64>,
    pub target_name: Option<String>,
    pub target_photo: Option<String>,
    pub class_year_id: Option<i64>,
    pub class_year_name: Option<String>,
    pub school_id: Option<i64>,
    pub school_name: Option<String>,
}

/// Roster payload: students keyed by their id text.
#[derive(Debug, Clone)]
pub struct PupilsResponse {
    pub child_pupils: Option<Vec<(String, ChildPupil)>>,
    pub pupils: Option<Vec<ChildPupil>>,
}

/// A role of the signed-in user.
#[derive(Debug, Clone)]
pub struct UserRole {
    pub role_id: Option<i64>,
    pub role_name: Option<String>,
}

/// A school year the account can see.
#[derive(Debug, Clone)]
pub struct SchoolYear {
    pub id: i64,
    pub name: Option<String>,
}

/// The signed-in user.
#[derive(Debug, Clone)]
pub struct User {
    pub id: Option<i64>,
    pub names: Option<String>,
    pub roles: Option<Vec<UserRole>>,
    pub years: Option<Vec<SchoolYear>>,
}

/// Users and school years payload.
#[derive(Debug, Clone)]
pub struct UsersAndYearsResponse {
    pub users: Option<Vec<User>>,
}

impl Student {
    /// A student from its roster key and entry: the id is the key read as a
    /// number, else the entry's own id, else 0; the name defaults to "Unknown".
    pub fn from_child_pupil(id: &str, pupil: &ChildPupil) -> (r: Self)
        ensures
            student_from(id@, *pupil, r),
    {
        let parsed = parse_i64(id);
        let id_value = match parsed {
            Some(v) => v,
            None => match pupil.target_id {
                Some(t) => t,
                None => 0,
            },
        };
        Student {
            id: id_value,
            name: text_or(&pupil.target_name, "Unknown"),
            class_name: copy_text(&pupil.class_year_name),
            school_name: copy_text(&pupil.school_name),
        }
    }
}

// ---------------------------------------------------------------------
// Homework
// ---------------------------------------------------------------------

/// A homework assignment.
#[derive(Debug, Clone)]
pub struct Homework {
    pub id: Option<i64>,
    pub subject: String,
    pub text: String,
    pub date: String,
    pub due_date: Option<String>,
    pub date_sort: Option<String>,
    pub due_date_sort: Option<String>,
}

/// A course that may carry homework.
#[derive(Debug, Clone)]
pub struct HomeworkCourse {
    pub cyc_group_id: Option<i64>,
    pub course_name: Option<String>,
    pub course_short_name: Option<String>,
}

/// Course list payload with the pending homework count of each course group.
#[derive(Debug, Clone)]
pub struct HomeworkCoursesResponse {
    pub courses: Option<Vec<HomeworkCourse>>,
    pub cyc_group_homeworks_count: Option<Vec<(String, i64)>>,
}

/// A homework item as a course's item list describes it.
#[derive(Debug, Clone)]
pub struct HomeworkItem {
    pub id: Option<i64>,
    pub homework_text: Option<String>,
    pub homework_due_date: Option<String>,
    pub shi_date: Option<String>,
    pub shi_date_for_sort: Option<String>,
}

/// Item list payload of one course.
#[derive(Debug, Clone)]
pub struct HomeworkListResponse {
    pub homeworks: Option<Vec<HomeworkItem>>,
}

/// "DD.MM.YYYY" turned into "YYYY-MM-DD": the three dot-separated parts in
/// reverse order joined by dashes, when there are exactly three.
pub open spec fn dashed_date(s: Seq<char>) -> Option<Seq<char>> {
    match split3(s, '.') {
        Some((a, b, c)) => Some(c + "-"@ + b + "-"@ + a),
        None => None,
    }
}

/// Reorders a dotted day-first date into a sortable dashed year-first one.
pub fn to_dashed_date(s: &str) -> (r: Option<String>)
    ensures
        match dashed_date(s@) {
            Some(d) => r matches Some(x) && x@ == d,
            None => r is None,
        },
{
    match split_three(s, '.') {
        Some((a, b, c)) => {
            let mut out = c;
            out.append("-");
            out.append(b.as_str());
            out.append("-");
            out.append(a.as_str());
            Some(out)
        },
        None => None,
    }
}

impl Homework {
    /// A homework entry from a course item, tagged with `subject`.
    pub fn from_item(item: &HomeworkItem, subject: &str) -> (r: Self)
        ensures
            homework_from(*item, subject@, r),
    {
        let due_date_sort = match &item.homework_due_date {
            Some(d) => to_dashed_date(d.as_str()),
            None => None,
        };
        Homework {
            id: item.id,
            subject: subject.to_owned(),
            text: text_or(&item.homework_text, ""),
            date: text_or(&item.shi_date, ""),
            due_date: copy_text(&item.homework_due_date),
            date_sort: copy_text(&item.shi_date_for_sort),
            due_date_sort,
        }
    }
}

// ---------------------------------------------------------------------
// Grades
// ---------------------------------------------------------------------

/// Grades of one subject.
#[derive(Debug, Clone)]
pub struct Grade {
    pub subject: String,
    pub term1_grades: Vec<String>,
    pub term2_grades: Vec<String>,
    pub term1_final: Option<String>,
    pub term2_final: Option<String>,
    pub annual: Option<String>,
}

impl Grade {
    /// Whether any grade at all is recorded.
    pub fn has_grades(&self) -> (r: bool)
        ensures
            r == (self.term1_grades@.len() > 0 || self.term2_grades@.len() > 0
                || self.term1_final is Some || self.term2_final is Some || self.annual is Some),
    {
        !self.term1_grades.is_empty() || !self.term2_grades.is_empty() || self.term1_final.is_some()
            || self.term2_final.is_some() || self.annual.is_some()
    }
}

/// One grade as the grades payload gives it; a numeric grade arrives here
/// already written out as text.
#[derive(Debug, Clone)]
pub struct GradeDetail {
    pub grade: Option<String>,
    pub grade_raw: Option<String>,
    pub numerical_value: Option<String>,
    pub icon: Option<String>,
}

/// A term's grades, keyed (in the order the payload was read) or listed.
#[derive(Debug, Clone)]
pub enum TermGrades {
    Keyed(Vec<(String, GradeDetail)>),
    List(Vec<GradeDetail>),
}

/// A subject's grades as the grades payload describes them.
#[derive(Debug, Clone)]
pub struct CourseGrades {
    pub target_name: Option<String>,
    pub course_name: Option<String>,
    pub term1: Option<TermGrades>,
    pub term2: Option<TermGrades>,
    pub term1final: Option<TermGrades>,
    pub term2final: Option<TermGrades>,
    pub annual: Option<TermGrades>,
}

/// Grades payload, under either of two field names.
#[derive(Debug, Clone)]
pub struct GradesSummaryResponse {
    pub grades: Option<Vec<CourseGrades>>,
    pub courses: Option<Vec<CourseGrades>>,
}

/// The text of a grade: `grade`, else `grade_raw`, else the numeric value.
pub open spec fn grade_text(d: GradeDetail) -> Option<String> {
    first_of(d.grade, first_of(d.grade_raw, d.numerical_value))
}

/// The grades of a term, in order.
pub open spec fn term_details(t: Option<TermGrades>) -> Seq<GradeDetail> {
    match t {
        Some(TermGrades::Keyed(m)) => m@.map_values(|e: (String, GradeDetail)| e.1),
        Some(TermGrades::List(l)) => l@,
        None => Seq::empty(),
    }
}

/// The texts of the grades that have one, in order.
pub open spec fn present_grades(ds: Seq<GradeDetail>) -> Seq<String>
    decreases ds.len(),
{
    if ds.len() == 0 {
        Seq::empty()
    } else {
        let rest = present_grades(ds.drop_last());
        match grade_text(ds.last()) {
            Some(g) => rest.push(g),
            None => rest,
        }
    }
}

/// The first grade text among `ds`, if any.
pub open spec fn first_grade(ds: Seq<GradeDetail>) -> Option<String>
    decreases ds.len(),
{
    if ds.len() == 0 {
        None
    } else {
        match grade_text(ds[0]) {
            Some(g) => Some(g),
            None => first_grade(ds.drop_first()),
        }
    }
}

/// `r` is the grade record built from `c`.
pub open spec fn grade_from(c: CourseGrades, r: Grade) -> bool {
    &&& r.subject@ == text_of(first_of(c.target_name, c.course_name), "Unknown"@)
    &&& r.term1_grades@ == present_grades(term_details(c.term1))
    &&& r.term2_grades@ == present_grades(term_details(c.term2))
    &&& r.term1_final == first_grade(term_details(c.term1final))
    &&& r.term2_final == first_grade(term_details(c.term2final))
    &&& r.annual == first_grade(term_details(c.annual))
}

fn grade_text_of(d: &GradeDetail) -> (r: Option<String>)
    ensures
        r == grade_text(*d),
{
    either_text(&d.grade, &either_text(&d.grade_raw, &d.numerical_value))
}

fn detail_at(t: &TermGrades, k: usize) -> (r: &GradeDetail)
    requires
        k < term_details(Some(*t)).len(),
    ensures
        *r == term_details(Some(*t))[k as int],
{
    match t {
        TermGrades::Keyed(m) => &m[k].1,
        TermGrades::List(l) => &l[k],
    }
}

fn detail_count(t: &TermGrades) -> (r: usize)
    ensures
        r == term_details(Some(*t)).len(),
{
    match t {
        TermGrades::Keyed(m) => m.len(),
        TermGrades::List(l) => l.len(),
    }
}

fn extract_grades(term: &Option<TermGrades>) -> (r: Vec<String>)
    ensures
        r@ == present_grades(term_details(*term)),
{
    let mut out: Vec<String> = Vec::new();
    match term {
        Some(t) => {
            let ghost ds = term_details(*term);
            let n = detail_count(t);
            let mut k: usize = 0;
            while k < n
                invariant
                    k <= n,
                    n == ds.len(),
                    ds == term_details(Some(*t)),
                    out@ == present_grades(ds.subrange(0, k as int)),
                decreases n - k,
            {
                proof {
                    assert(ds.subrange(0, k + 1).drop_last() =~= ds.subrange(0, k as int));
                }
                let d = detail_at(t, k);
                match grade_text_of(d) {
                    Some(g) => out.push(g),
                    None => {},
                }
                k += 1;
            }
            proof {
                assert(ds.subrange(0, n as int) =~= ds);
            }
        },
        None => {},
    }
    out
}

fn extract_final_grade(term: &Option<TermGrades>) -> (r: Option<String>)
    ensures
        r == first_grade(term_details(*term)),
{
    match term {
        Some(t) => {
            let ghost ds = term_details(*term);
            let n = detail_count(t);
            let mut k: usize = 0;
            assert(ds.subrange(0, n as int) =~= ds);
            while k < n
                invariant
                    k <= n,
                    n == ds.len(),
                    ds == term_details(Some(*t)),
                    ds == term_details(*term),
                    first_grade(ds) == first_grade(ds.subrange(k as int, n as int)),
                decreases n - k,
            {
                proof {
                    let rest = ds.subrange(k as int, n as int);
                    assert(rest.drop_first() =~= ds.subrange(k + 1, n as int));
                    assert(rest[0] == ds[k as int]);
                }
                let d = detail_at(t, k);
                let g = grade_text_of(d);
                if g.is_some() {
                    proof {
                        let rest = ds.subrange(k as int, n as int);
                        assert(rest.len() > 0);
                        assert(grade_text(rest[0]) == g);
                        assert(first_grade(rest) == g);
                    }
                    return g;
                }
                k += 1;
            }
            None
        },
        None => None,
    }
}

impl Grade {
    /// A subject's grade record: the subject falls back from `target_name`
    /// to `course_name` to "Unknown"; each term keeps the grades that have a
    /// text, and each final grade is the first such grade.
    pub fn from_course_grades(course: &CourseGrades) -> (r: Self)
        ensures
            grade_from(*course, r),
    {
        Grade {
            subject: text_or(&either_text(&course.target_name, &course.course_name), "Unknown"),
            term1_grades: extract_grades(&course.term1),
            term2_grades: extract_grades(&course.term2),
            term1_final: extract_final_grade(&course.term1final),
            term2_final: extract_final_grade(&course.term2final),
            annual: extract_final_grade(&course.annual),
        }
    }
}

// ---------------------------------------------------------------------
// Schedule and events
// ---------------------------------------------------------------------

/// One lesson of a day's timetable.
#[derive(Debug, Clone)]
pub struct ScheduleHour {
    pub hour_number: i32,
    pub from_time: String,
    pub to_time: String,
    pub subject: String,
    pub teacher: Option<String>,
    pub topic: Option<String>,
    pub homework: Option<String>,
    pub room: Option<String>,
}

/// A lesson as the timetable payload describes it.
#[derive(Debug, Clone)]
pub struct ScheduleHourRaw {
    pub school_hour: Option<i32>,
    pub from_time: Option<String>,
    pub to_time: Option<String>,
    pub course_name: Option<String>,
    pub teacher_name: Option<String>,
    pub topic: Option<String>,
    pub homework_text: Option<String>,
    pub room_name: Option<String>,
}

/// Timetable payload, under either of two field names.
#[derive(Debug, Clone)]
pub struct ScheduleResponse {
    pub schedule_hours: Option<Vec<ScheduleHourRaw>>,
    pub data: Option<Vec<ScheduleHourRaw>>,
}

/// A calendar event such as a test.
#[derive(Debug, Clone)]
pub struct Event {
    pub id: Option<i64>,
    pub title: String,
    pub description: Option<String>,
    pub start_date: String,
    pub end_date: Option<String>,
    pub event_type: Option<String>,
    pub is_test: bool,
}

/// An event as the events payload describes it.
#[derive(Debug, Clone)]
pub struct EventRaw {
    pub id: Option<i64>,
    pub title: Option<String>,
    pub name: Option<String>,
    pub description: Option<String>,
    pub start_date: Option<String>,
    pub end_date: Option<String>,
    pub event_type: Option<i32>,
    pub kind_name: Option<String>,
}

/// Events payload, under either of two field names.
#[derive(Debug, Clone)]
pub struct EventsResponse {
    pub data: Option<Vec<EventRaw>>,
    pub invitations: Option<Vec<EventRaw>>,
}

impl ScheduleHour {
    /// A lesson from its payload; the subject defaults to "Unknown".
    pub fn from_raw(raw: &ScheduleHourRaw) -> (r: Self)
        ensures
            lesson_from(*raw, r),
    {
        ScheduleHour {
            hour_number: match raw.school_hour {
                Some(h) => h,
                None => 0,
            },
            from_time: text_or(&raw.from_time, ""),
            to_time: text_or(&raw.to_time, ""),
            subject: text_or(&raw.course_name, "Unknown"),
            teacher: copy_text(&raw.teacher_name),
            topic: copy_text(&raw.topic),
            homework: copy_text(&raw.homework_text),
            room: copy_text(&raw.room_name),
        }
    }
}

impl Event {
    /// An event from its payload: the title falls back from `title` to
    /// `name` to "Untitled"; types 12 to 15 are tests.
    pub fn from_raw(raw: &EventRaw) -> (r: Self)
        ensures
            event_from(*raw, r),
    {
        let is_test = match raw.event_type {
            Some(t) => 12 <= t && t <= 15,
            None => false,
        };
        Event {
            id: raw.id,
            title: text_or(&either_text(&raw.title, &raw.name), "Untitled"),
            description: copy_text(&raw.description),
            start_date: text_or(&raw.start_date, ""),
            end_date: copy_text(&raw.end_date),
            event_type: copy_text(&raw.kind_name),
            is_test,
        }
    }
}

// ---------------------------------------------------------------------
// Notifications
// ---------------------------------------------------------------------

/// A notification shown in the notifications tab.
#[derive(Debug, Clone)]
pub struct Notification {
    pub id: Option<String>,
    pub title: String,
    pub body: Option<String>,
    pub date: String,
    pub is_read: bool,
    pub notification_type: Option<String>,
    pub pupil_names: Option<String>,
}

/// A notification as the payload describes it.
#[derive(Debug, Clone)]
pub struct NotificationRaw {
    pub id: Option<String>,
    pub text: Option<String>,
    pub title: Option<String>,
    pub subject: Option<String>,
    pub body: Option<String>,
    pub message: Option<String>,
    pub created_at: Option<String>,
    pub date: Option<String>,
    pub seen_at: Option<String>,
    pub is_read: Option<bool>,
    pub read: Option<bool>,
    pub notification_trigger_slug: Option<String>,
    pub notification_type: Option<String>,
}

/// Notifications payload, under either of two field names.
#[derive(Debug, Clone)]
pub struct NotificationsResponse {
    pub data: Option<Vec<NotificationRaw>>,
    pub notifications: Option<Vec<NotificationRaw>>,
}

impl Notification {
    /// A notification from its payload. The title falls back from `text` to
    /// `title` to `subject` to "No title"; it is read when seen or flagged read.
    pub fn from_raw(raw: &NotificationRaw) -> (r: Self)
        ensures
            notification_from(*raw, r),
    {
        let flagged = match raw.is_read {
            Some(b) => b,
            None => false,
        };
        let read = match raw.read {
            Some(b) => b,
            None => false,
        };
        let is_read = raw.seen_at.is_some() || flagged || read;
        Notification {
            id: copy_text(&raw.id),
            title: text_or(
                &either_text(&raw.text, &either_text(&raw.title, &raw.subject)),
                "No title",
            ),
            body: either_text(&raw.body, &raw.message),
            date: text_or(&either_text(&raw.created_at, &raw.date), ""),
            is_read,
            notification_type: either_text(&raw.notification_trigger_slug, &raw.notification_type),
            pupil_names: None,
        }
    }
}

// ---------------------------------------------------------------------
// Absences
// ---------------------------------------------------------------------

/// An absence as the payload describes it.
#[derive(Debug, Clone)]
pub struct AbsenceRaw {
    pub id: Option<String>,
    pub date: Option<String>,
    pub school_hour: Option<i32>,
    pub course_name: Option<String>,
    pub course_short_name: Option<String>,
    pub absence_type_id: Option<i32>,
    pub absence_excuse_type_id: Option<i32>,
    pub absence_comment: Option<String>,
    pub created_by: Option<String>,
    pub created_date_time: Option<String>,
}

/// Absences payload.
#[derive(Debug, Clone)]
pub struct AbsencesResponse {
    pub absences: Option<Vec<AbsenceRaw>>,
}

/// An absence from one lesson.
#[derive(Debug, Clone)]
pub struct Absence {
    pub id: String,
    pub date: String,
    pub date_sort: String,
    pub hour: i32,
    pub subject: String,
    pub is_excused: bool,
    pub excuse_reason: Option<String>,
    pub created_by: Option<String>,
}

/// Sort key of an absence date: dashed when the date has at least ten
/// characters and three dot-separated parts, the date itself otherwise.
pub open spec fn absence_sort_key(date: Seq<char>) -> Seq<char> {
    if date.len() >= 10 {
        match dashed_date(date) {
            Some(d) => d,
            None => date,
        }
    } else {
        date
    }
}

impl Absence {
    /// An absence from its payload; excuse type 1 means excused.
    pub fn from_raw(raw: &AbsenceRaw) -> (r: Self)
        ensures
            absence_from(*raw, r),
    {
        let date = text_or(&raw.date, "");
        let date_sort = if date.as_str().unicode_len() >= 10 {
            match to_dashed_date(date.as_str()) {
                Some(d) => d,
                None => date.clone(),
            }
        } else {
            date.clone()
        };
        let is_excused = match raw.absence_excuse_type_id {
            Some(t) => t == 1,
            None => false,
        };
        Absence {
            id: text_or(&raw.id, ""),
            date,
            date_sort,
            hour: match raw.school_hour {
                Some(h) => h,
                None => 0,
            },
            subject: text_or(&either_text(&raw.course_short_name, &raw.course_name), "Unknown"),
            is_excused,
            excuse_reason: copy_text(&raw.absence_comment),
            created_by: copy_text(&raw.created_by),
        }
    }
}

// ---------------------------------------------------------------------
// Feedback badges
// ---------------------------------------------------------------------

/// A feedback badge as the payload describes it.
#[derive(Debug, Clone)]
pub struct FeedbackRaw {
    pub id: Option<i64>,
    pub badge_name: Option<String>,
    pub badge_icon: Option<String>,
    pub badge_type_id: Option<i64>,
    pub text: Option<String>,
    pub created_date: Option<String>,
    pub created_by: Option<String>,
    pub course_name: Option<String>,
    pub course_short_name: Option<String>,
}

/// Feedback payload, under either of two field names.
#[derive(Debug, Clone)]
pub struct FeedbacksResponse {
    pub data: Option<Vec<FeedbackRaw>>,
    pub feedbacks: Option<Vec<FeedbackRaw>>,
}

/// A feedback badge given by a teacher.
#[derive(Debug, Clone)]
pub struct Feedback {
    pub id: i64,
    pub badge_name: String,
    pub badge_icon: Option<String>,
    pub comment: Option<String>,
    pub is_positive: bool,
    pub date: String,
    pub teacher: String,
    pub subject: String,
}

/// A part of a date read as a number, 0 when unreadable.
pub open spec fn number_or_zero(s: Seq<char>) -> u32 {
    match parse_u32_spec(s) {
        Some(v) => v,
        None => 0,
    }
}

/// (year, month, day) of a "DD.MM.YYYY" date; (0, 0, 0) without three parts.
pub open spec fn feedback_date(s: Seq<char>) -> (u32, u32, u32) {
    match split3(s, '.') {
        Some((d, m, y)) => (number_or_zero(y), number_or_zero(m), number_or_zero(d)),
        None => (0, 0, 0),
    }
}

/// Three-way comparison of two integers.
pub open spec fn compare_ints(x: int, y: int) -> core::cmp::Ordering {
    if x < y {
        core::cmp::Ordering::Less
    } else if x > y {
        core::cmp::Ordering::Greater
    } else {
        core::cmp::Ordering::Equal
    }
}

/// Lexicographic three-way comparison of two texts.
pub open spec fn compare_texts(a: Seq<char>, b: Seq<char>) -> core::cmp::Ordering {
    if text_less(a, b) {
        core::cmp::Ordering::Less
    } else if a == b {
        core::cmp::Ordering::Equal
    } else {
        core::cmp::Ordering::Greater
    }
}

/// `first`, unless it is equal, then `second`.
pub open spec fn then_cmp(first: core::cmp::Ordering, second: core::cmp::Ordering) -> core::cmp::Ordering {
    if first == core::cmp::Ordering::Equal {
        second
    } else {
        first
    }
}

/// Order of two dates as (year, month, day) triples.
pub open spec fn compare_dates(a: (u32, u32, u32), b: (u32, u32, u32)) -> core::cmp::Ordering {
    then_cmp(
        compare_ints(a.0 as int, b.0 as int),
        then_cmp(compare_ints(a.1 as int, b.1 as int), compare_ints(a.2 as int, b.2 as int)),
    )
}

/// Feedback order: newest date first, then subject, then id.
pub open spec fn feedback_order(a: Feedback, b: Feedback) -> core::cmp::Ordering {
    then_cmp(
        compare_dates(feedback_date(b.date@), feedback_date(a.date@)),
        then_cmp(compare_texts(a.subject@, b.subject@), compare_ints(a.id as int, b.id as int)),
    )
}

/// The emoji shown for a badge icon.
pub open spec fn icon_emoji(icon: Seq<char>, positive: bool) -> Seq<char> {
    if icon == "no-homework.png"@ || icon == "no_homework.png"@ {
        "📝❌"@
    } else if icon == "not-prepared.png"@ || icon == "unprepared.png"@ {
        "❌"@
    } else if icon == "no-attention.png"@ || icon == "attention.png"@ {
        "👀"@
    } else if icon == "poor-performance.png"@ {
        "📉"@
    } else if icon == "disrespect.png"@ {
        "😠"@
    } else if icon == "bad-behavior.png"@ || icon == "bad_behavior.png"@ {
        "👎"@
    } else if icon == "late.png"@ {
        "⏰"@
    } else if icon == "warning.png"@ {
        "⚠️"@
    } else if icon == "excellence.png"@ || icon == "excellent-work.png"@ {
        "🌟"@
    } else if icon == "creativity.png"@ {
        "🎨"@
    } else if icon == "homework.png"@ {
        "✅"@
    } else if icon == "active-participation.png"@ {
        "🙋"@
    } else if icon == "prepared.png"@ {
        "📚"@
    } else if icon == "good-behavior.png"@ || icon == "behavior.png"@ {
        "👍"@
    } else if icon == "praise.png"@ {
        "🏆"@
    } else if icon == "thumbs-up.png"@ {
        "👍"@
    } else if icon == "star.png"@ {
        "⭐"@
    } else if icon[0] as u32 >= 128 {
        icon
    } else if positive {
        "⭐"@
    } else {
        "⚠️"@
    }
}

/// The emoji shown for a feedback.
pub open spec fn feedback_emoji(icon: Option<String>, positive: bool) -> Seq<char> {
    match icon {
        Some(i) => if i@.len() > 0 {
            icon_emoji(i@, positive)
        } else if positive {
            "⭐"@
        } else {
            "⚠️"@
        },
        None => if positive {
            "⭐"@
        } else {
            "⚠️"@
        },
    }
}

fn compare_u32(x: u32, y: u32) -> (r: core::cmp::Ordering)
    ensures
        r == compare_ints(x as int, y as int),
{
    if x < y {
        core::cmp::Ordering::Less
    } else if x > y {
        core::cmp::Ordering::Greater
    } else {
        core::cmp::Ordering::Equal
    }
}

fn number_or_zero_of(s: &str) -> (r: u32)
    ensures
        r == number_or_zero(s@),
{
    match parse_u32(s) {
        Some(v) => v,
        None => 0,
    }
}

fn icon_emoji_of(icon: &str, positive: bool) -> (r: String)
    requires
        icon@.len() > 0,
    ensures
        r@ == icon_emoji(icon@, positive),
{
        if text_eq(icon, "no-homework.png") || text_eq(icon, "no_homework.png") {
            "📝❌".to_owned()
        } else if text_eq(icon, "not-prepared.png") || text_eq(icon, "unprepared.png") {
            "❌".to_owned()
        } else if text_eq(icon, "no-attention.png") || text_eq(icon, "attention.png") {
            "👀".to_owned()
        } else if text_eq(icon, "poor-performance.png") {
            "📉".to_owned()
        } else if text_eq(icon, "disrespect.png") {
            "😠".to_owned()
        } else if text_eq(icon, "bad-behavior.png") || text_eq(icon, "bad_behavior.png") {
            "👎".to_owned()
        } else if text_eq(icon, "late.png") {
            "⏰".to_owned()
        } else if text_eq(icon, "warning.png") {
            "⚠️".to_owned()
        } else if text_eq(icon, "excellence.png") || text_eq(icon, "excellent-work.png") {
            "🌟".to_owned()
        } else if text_eq(icon, "creativity.png") {
            "🎨".to_owned()
        } else if text_eq(icon, "homework.png") {
            "✅".to_owned()
        } else if text_eq(icon, "active-participation.png") {
            "🙋".to_owned()
        } else if text_eq(icon, "prepared.png") {
            "📚".to_owned()
        } else if text_eq(icon, "good-behavior.png") || text_eq(icon, "behavior.png") {
            "👍".to_owned()
        } else if text_eq(icon, "praise.png") {
            "🏆".to_owned()
        } else if text_eq(icon, "thumbs-up.png") {
            "👍".to_owned()
        } else if text_eq(icon, "star.png") {
            "⭐".to_owned()
        } else if icon.get_char(0) as u32 >= 128 {
            icon.to_owned()
        } else if positive {
            "⭐".to_owned()
        } else {
            "⚠️".to_owned()
        }
}

impl Feedback {
    /// (year, month, day) of a "DD.MM.YYYY" date; (0, 0, 0) when it does not
    /// have three parts, and 0 for a part that is not a number.
    pub fn parse_date(date: &str) -> (r: (u32, u32, u32))
        ensures
            r == feedback_date(date@),
    {
        match split_three(date, '.') {
            Some((d, m, y)) => (
                number_or_zero_of(y.as_str()),
                number_or_zero_of(m.as_str()),
                number_or_zero_of(d.as_str()),
            ),
            None => (0, 0, 0),
        }
    }

    /// Newest date first, then subject, then id.
    pub fn cmp_by_date(a: &Feedback, b: &Feedback) -> (r: core::cmp::Ordering)
        ensures
            r == feedback_order(*a, *b),
    {
        let da = Self::parse_date(a.date.as_str());
        let db = Self::parse_date(b.date.as_str());
        let by_year = compare_u32(db.0, da.0);
        let by_month = compare_u32(db.1, da.1);
        let by_day = compare_u32(db.2, da.2);
        let by_date = match by_year {
            core::cmp::Ordering::Equal => match by_month {
                core::cmp::Ordering::Equal => by_day,
                _ => by_month,
            },
            _ => by_year,
        };
        match by_date {
            core::cmp::Ordering::Equal => {},
            _ => {
                return by_date;
            },
        }
        let by_subject = compare_text(a.subject.as_str(), b.subject.as_str());
        match by_subject {
            core::cmp::Ordering::Equal => {},
            _ => {
                return by_subject;
            },
        }
        if a.id < b.id {
            core::cmp::Ordering::Less
        } else if a.id > b.id {
            core::cmp::Ordering::Greater
        } else {
            core::cmp::Ordering::Equal
        }
    }

    /// A feedback from its payload: badge type 1 is positive, and a missing
    /// type counts as positive; the date defaults to "N/A".
    pub fn from_raw(raw: &FeedbackRaw) -> (r: Self)
        ensures
            feedback_from(*raw, r),
    {
        let is_positive = match raw.badge_type_id {
            Some(t) => t == 1,
            None => true,
        };
        Feedback {
            id: match raw.id {
                Some(i) => i,
                None => 0,
            },
            badge_name: text_or(&raw.badge_name, "Feedback"),
            badge_icon: copy_text(&raw.badge_icon),
            comment: copy_text(&raw.text),
            is_positive,
            date: text_or(&raw.created_date, "N/A"),
            teacher: text_or(&raw.created_by, ""),
            subject: text_or(&either_text(&raw.course_short_name, &raw.course_name), ""),
        }
    }

    /// Emoji for the badge icon; unknown icons fall back on the badge's sign,
    /// and an icon that starts with a non-ASCII character is shown as is.
    pub fn emoji(&self) -> (r: String)
        ensures
            r@ == feedback_emoji(self.badge_icon, self.is_positive),
    {
        match &self.badge_icon {
            Some(icon) => {
                if icon.as_str().unicode_len() > 0 {
                    return icon_emoji_of(icon.as_str(), self.is_positive);
                }
            },
            None => {},
        }
        if self.is_positive {
            "⭐".to_owned()
        } else {
            "⚠️".to_owned()
        }
    }
}

// ---------------------------------------------------------------------
// Messages
// ---------------------------------------------------------------------

/// A message folder of the messenger.
#[derive(Debug, Clone)]
pub struct MessageFolder {
    pub id: i64,
    pub name: String,
    pub system_folder_slug: Option<String>,
    pub folder_total_count: i32,
    pub folder_unread_count: i32,
}

/// A message of a thread as the payload describes it.
#[derive(Debug, Clone)]
pub struct MessageRaw {
    pub id: Option<i64>,
    pub body: Option<String>,
    pub user_id: Option<i64>,
    pub user_name: Option<String>,
    pub user_names: Option<String>,
    pub created_at: Option<String>,
    pub is_system: Option<bool>,
}

/// A single message within a conversation thread.
#[derive(Debug, Clone)]
pub struct Message {
    pub id: i64,
    pub body: String,
    pub sender_id: i64,
    pub sender_name: String,
    pub date: String,
    pub is_system: bool,
}

/// A possible recipient as the payload describes it.
#[derive(Debug, Clone)]
pub struct RecipientRaw {
    pub id: Option<i64>,
    pub name: Option<String>,
    pub names: Option<String>,
    pub recipient_type: Option<String>,
    pub email: Option<String>,
}

/// A possible recipient of a new message.
#[derive(Debug, Clone)]
pub struct Recipient {
    pub id: i64,
    pub name: String,
    pub recipient_type: String,
}

/// A thread as the payload describes it.
#[derive(Debug, Clone)]
pub struct MessageThreadRaw {
    pub id: Option<i64>,
    pub subject: Option<String>,
    pub last_msg_body: Option<String>,
    pub last_msg_user: Option<String>,
    pub last_msg_user_id: Option<i64>,
    pub participant_count: Option<i32>,
    pub is_unread: Option<bool>,
    pub is_draft: Option<i32>,
    pub updated_at: Option<String>,
    pub thread_creator: Option<String>,
}

/// A conversation thread in the message list.
#[derive(Debug, Clone)]
pub struct MessageThread {
    pub id: i64,
    pub subject: String,
    pub last_message: String,
    pub last_sender: String,
    pub participant_count: i32,
    pub is_unread: bool,
    pub updated_at: String,
    pub creator: String,
}

/// "YYYY-MM-DD hh:mm:ss" shown as "DD.MM.YYYY hh:mm"; any other text of at
/// least sixteen characters unchanged; a shorter text unchanged too.
pub open spec fn message_date(d: Seq<char>) -> Seq<char> {
    if d.len() >= 16 {
        match split_head(d, ' ') {
            Some((day, time)) => match split3(day, '-') {
                Some((y, m, dd)) => dd + "."@ + m + "."@ + y + " "@ + prefix(time, 5),
                None => d,
            },
            None => d,
        }
    } else {
        d
    }
}

/// "YYYY-MM-DD hh:mm:ss" shown as "DD.MM hh:mm"; other text unchanged.
pub open spec fn thread_time(d: Seq<char>) -> Seq<char> {
    match split_head(d, ' ') {
        Some((day, time)) => match split3(day, '-') {
            Some((y, m, dd)) => dd + "."@ + m + " "@ + prefix(time, 5),
            None => d,
        },
        None => d,
    }
}

/// The last message cut to `max_len` characters, ending in "..." when cut.
pub open spec fn preview_of(text: Seq<char>, max_len: int) -> Seq<char> {
    if text.len() <= max_len {
        text
    } else {
        let keep = if max_len >= 3 {
            max_len - 3
        } else {
            0
        };
        text.subrange(0, keep) + "..."@
    }
}

impl Message {
    /// A message from its payload; the sender falls back from `user_names`
    /// to `user_name`.
    pub fn from_raw(raw: &MessageRaw) -> (r: Self)
        ensures
            message_from(*raw, r),
    {
        let date = match &raw.created_at {
            Some(d) => Self::format_date(d.as_str()),
            None => "".to_owned(),
        };
        Message {
            id: match raw.id {
                Some(i) => i,
                None => 0,
            },
            body: text_or(&raw.body, ""),
            sender_id: match raw.user_id {
                Some(i) => i,
                None => 0,
            },
            sender_name: text_or(&either_text(&raw.user_names, &raw.user_name), ""),
            date,
            is_system: match raw.is_system {
                Some(b) => b,
                None => false,
            },
        }
    }

    fn format_date(d: &str) -> (r: String)
        ensures
            r@ == message_date(d@),
    {
        if d.unicode_len() < 16 {
            return d.to_owned();
        }
        match split_two(d, ' ') {
            Some((day, time)) => match split_three(day.as_str(), '-') {
                Some((y, m, dd)) => {
                    let mut out = dd;
                    out.append(".");
                    out.append(m.as_str());
                    out.append(".");
                    out.append(y.as_str());
                    out.append(" ");
                    let t = take_chars(time.as_str(), 5);
                    out.append(t.as_str());
                    out
                },
                None => d.to_owned(),
            },
            None => d.to_owned(),
        }
    }
}

impl Recipient {
    /// A recipient from its payload; the name falls back from `names` to `name`.
    pub fn from_raw(raw: &RecipientRaw) -> (r: Self)
        ensures
            recipient_from(*raw, r),
    {
        Recipient {
            id: match raw.id {
                Some(i) => i,
                None => 0,
            },
            name: text_or(&either_text(&raw.names, &raw.name), ""),
            recipient_type: text_or(&raw.recipient_type, ""),
        }
    }
}

impl MessageThread {
    /// A thread from its payload, absent fields empty or zero.
    pub fn from_raw(raw: &MessageThreadRaw) -> (r: Self)
        ensures
            thread_from(*raw, r),
    {
        MessageThread {
            id: match raw.id {
                Some(i) => i,
                None => 0,
            },
            subject: text_or(&raw.subject, ""),
            last_message: text_or(&raw.last_msg_body, ""),
            last_sender: text_or(&raw.last_msg_user, ""),
            participant_count: match raw.participant_count {
                Some(c) => c,
                None => 0,
            },
            is_unread: match raw.is_unread {
                Some(b) => b,
                None => false,
            },
            updated_at: text_or(&raw.updated_at, ""),
            creator: text_or(&raw.thread_creator, ""),
        }
    }

    /// The update time as "DD.MM hh:mm".
    pub fn display_time(&self) -> (r: String)
        ensures
            r@ == thread_time(self.updated_at@),
    {
        let d = self.updated_at.as_str();
        match split_two(d, ' ') {
            Some((day, time)) => match split_three(day.as_str(), '-') {
                Some((_y, m, dd)) => {
                    let mut out = dd;
                    out.append(".");
                    out.append(m.as_str());
                    out.append(" ");
                    let t = take_chars(time.as_str(), 5);
                    out.append(t.as_str());
                    out
                },
                None => self.updated_at.clone(),
            },
            None => self.updated_at.clone(),
        }
    }

    /// The last message cut for a one-line preview.
    pub fn preview(&self, max_len: usize) -> (r: String)
        ensures
            r@ == preview_of(self.last_message@, max_len as int),
    {
        let text = self.last_message.as_str();
        let n = text.unicode_len();
        if n <= max_len {
            return self.last_message.clone();
        }
        let keep: usize = if max_len >= 3 {
            max_len - 3
        } else {
            0
        };
        let mut out = text.substring_char(0, keep).to_owned();
        out.append("...");
        out
    }
}

} // verus!
