use vstd::prelude::*;

use crate::clock::utc_now;
use crate::models::{
    Absence, Event, Feedback, Grade, Homework, MessageThread, Notification, ScheduleHour, Student,
};
use crate::text::{decimal, decimal_text, signed_decimal, signed_decimal_text};

verus! {

/// Seconds a cached record stays fresh unless configured otherwise.
pub const DEFAULT_TTL_SECONDS: i64 = 3600;

/// Capture times of the cached records, by record name.
#[derive(Debug, Clone)]
pub struct CacheMeta {
    pub timestamps: Vec<(String, i64)>,
}

impl Default for CacheMeta {
    fn default() -> (r: Self)
        ensures
            r.timestamps@.len() == 0,
    {
        CacheMeta { timestamps: Vec::new() }
    }
}

/// Interface settings kept between sessions.
#[derive(Debug, Clone)]
pub struct UiConfig {
    pub students_pane_width: Option<u16>,
}

impl Default for UiConfig {
    fn default() -> (r: Self)
        ensures
            r.students_pane_width is None,
    {
        UiConfig { students_pane_width: None }
    }
}

/// A cached value with the Unix time at which it was captured.
#[derive(Debug, Clone)]
pub struct CachedData<T> {
    pub data: T,
    pub cached_at: i64,
}

/// How long ago something happened, at the coarsest fitting unit:
/// seconds below a minute, minutes below an hour, hours below a day, else days.
pub open spec fn age_text(seconds: int) -> Seq<char> {
    if seconds < 60 {
        signed_decimal(seconds) + "s ago"@
    } else if seconds < 3600 {
        decimal((seconds / 60) as nat) + "m ago"@
    } else if seconds < 86400 {
        decimal((seconds / 3600) as nat) + "h ago"@
    } else {
        decimal((seconds / 86400) as nat) + "d ago"@
    }
}

/// A record captured at `cached_at` is stale at `now` once more than `ttl`
/// seconds have passed.
pub open spec fn is_stale(cached_at: int, now: int, ttl: int) -> bool {
    now - cached_at > ttl
}

/// What a lookup at `now` serves from a stored record: its value, its age
/// and whether it is stale. Stale records are still served.
pub open spec fn served<T>(stored: Option<CachedData<T>>, now: int, ttl: int) -> Option<
    (T, Seq<char>, bool),
> {
    match stored {
        Some(c) => Some(
            (c.data, age_text(now - c.cached_at), is_stale(c.cached_at as int, now, ttl)),
        ),
        None => None,
    }
}

/// `r` is what a lookup at `now` hands out for `stored` (see `served`).
pub open spec fn serves<T>(stored: Option<CachedData<T>>, now: int, ttl: int, r: Option<(T, String, bool)>) -> bool {
    match served(stored, now, ttl) {
        Some((v, age, stale)) => r matches Some((x, a, s)) && x == v && a@ == age && s == stale,
        None => r is None,
    }
}

/// How long ago `cached_at` was at `now`, as text.
pub fn age_text_between(cached_at: i64, now: i64) -> (r: String)
    ensures
        r@ == age_text(now - cached_at),
{
    let seconds = now as i128 - cached_at as i128;
    let mut out;
    if seconds < 60 {
        out = signed_decimal_text(seconds);
        out.append("s ago");
    } else if seconds < 3600 {
        out = decimal_text((seconds / 60) as u64);
        out.append("m ago");
    } else if seconds < 86400 {
        out = decimal_text((seconds / 3600) as u64);
        out.append("h ago");
    } else {
        out = decimal_text((seconds / 86400) as u64);
        out.append("d ago");
    }
    out
}

impl<T> CachedData<T> {
    /// `data` stamped with the current time.
    pub fn new(data: T) -> (r: Self)
        ensures
            r.data == data,
    {
        let now = utc_now();
        CachedData { data, cached_at: now.unix }
    }

    /// Whether the record is stale at `now`.
    pub fn is_expired_at(&self, now: i64, ttl_seconds: i64) -> (r: bool)
        ensures
            r == is_stale(self.cached_at as int, now as int, ttl_seconds as int),
    {
        (now as i128 - self.cached_at as i128) > ttl_seconds as i128
    }

    /// Whether the record is stale now.
    pub fn is_expired(&self, ttl_seconds: i64) -> (r: bool)
        ensures
            exists|now: i64|
                #![trigger is_stale(self.cached_at as int, now as int, ttl_seconds as int)]
                r == is_stale(self.cached_at as int, now as int, ttl_seconds as int),
    {
        let now = utc_now();
        self.is_expired_at(now.unix, ttl_seconds)
    }

    /// The record's age at `now`, as text.
    pub fn age_string_at(&self, now: i64) -> (r: String)
        ensures
            r@ == age_text(now - self.cached_at),
    {
        age_text_between(self.cached_at, now)
    }

    /// The record's age now, as text.
    pub fn age_string(&self) -> (r: String)
        ensures
            exists|now: i64| #![trigger age_text(now - self.cached_at)] r@ == age_text(now - self.cached_at),
    {
        let now = utc_now();
        self.age_string_at(now.unix)
    }
}

/// Where records are kept and how long they stay fresh.
#[derive(Debug)]
pub struct CacheStore {
    cache_dir: String,
    ttl_seconds: i64,
}

impl CacheStore {
    /// Freshness limit of this store.
    pub closed spec fn ttl_spec(&self) -> int {
        self.ttl_seconds as int
    }

    /// Directory of this store.
    pub closed spec fn dir_spec(&self) -> Seq<char> {
        self.cache_dir@
    }

    /// A store over `cache_dir`; records stay fresh for `ttl_seconds`, or
    /// an hour when not given.
    pub fn at(cache_dir: String, ttl_seconds: Option<i64>) -> (r: Self)
        ensures
            r.dir_spec() == cache_dir@,
            r.ttl_spec() == match ttl_seconds {
                Some(t) => t as int,
                None => DEFAULT_TTL_SECONDS as int,
            },
    {
        let ttl = match ttl_seconds {
            Some(t) => t,
            None => DEFAULT_TTL_SECONDS,
        };
        CacheStore { cache_dir, ttl_seconds: ttl }
    }

    /// Directory of this store.
    pub fn cache_dir(&self) -> (r: &String)
        ensures
            r@ == self.dir_spec(),
    {
        &self.cache_dir
    }

    /// Freshness limit in seconds.
    pub fn ttl(&self) -> (r: i64)
        ensures
            r == self.ttl_spec(),
    {
        self.ttl_seconds
    }

    /// Serves a stored record as it stands at `now`: value, age text and
    /// staleness; a missing or unreadable record is a miss.
    pub fn lookup_at<T>(&self, stored: Option<CachedData<T>>, now: i64) -> (r: Option<
        (T, String, bool),
    >)
        ensures
            serves(stored, now as int, self.ttl_spec(), r),
    {
        match stored {
            Some(c) => {
                let expired = c.is_expired_at(now, self.ttl_seconds);
                let age = c.age_string_at(now);
                Some((c.data, age, expired))
            },
            None => None,
        }
    }

    /// Serves a stored record as it stands now, whatever the clock reads.
    pub fn lookup<T>(&self, stored: Option<CachedData<T>>) -> (r: Option<(T, String, bool)>)
        ensures
            exists|now: i64| #[trigger] serves(stored, now as int, self.ttl_spec(), r),
    {
        let now = utc_now();
        let r = self.lookup_at(stored, now.unix);
        assert(serves(stored, now.unix as int, self.ttl_spec(), r));
        r
    }

    /// The cached student list as it stands now.
    pub fn get_students(&self, stored: Option<CachedData<Vec<Student>>>) -> (r: Option<
        (Vec<Student>, String, bool),
    >)
        ensures
            exists|now: i64| #[trigger] serves(stored, now as int, self.ttl_spec(), r),
    {
        self.lookup(stored)
    }

    /// A student list stamped for storing.
    pub fn save_students(&self, students: Vec<Student>) -> (r: CachedData<Vec<Student>>)
        ensures
            r.data == students,
    {
        CachedData::new(students)
    }

    /// A student's cached homework as it stands now.
    pub fn get_homework(&self, stored: Option<CachedData<Vec<Homework>>>) -> (r: Option<
        (Vec<Homework>, String, bool),
    >)
        ensures
            exists|now: i64| #[trigger] serves(stored, now as int, self.ttl_spec(), r),
    {
        self.lookup(stored)
    }

    /// Homework stamped for storing.
    pub fn save_homework(&self, homework: Vec<Homework>) -> (r: CachedData<Vec<Homework>>)
        ensures
            r.data == homework,
    {
        CachedData::new(homework)
    }

    /// A student's cached grades as they stand now.
    pub fn get_grades(&self, stored: Option<CachedData<Vec<Grade>>>) -> (r: Option<
        (Vec<Grade>, String, bool),
    >)
        ensures
            exists|now: i64| #[trigger] serves(stored, now as int, self.ttl_spec(), r),
    {
        self.lookup(stored)
    }

    /// Grades stamped for storing.
    pub fn save_grades(&self, grades: Vec<Grade>) -> (r: CachedData<Vec<Grade>>)
        ensures
            r.data == grades,
    {
        CachedData::new(grades)
    }

    /// A student's cached timetable for a date as it stands now.
    pub fn get_schedule(&self, stored: Option<CachedData<Vec<ScheduleHour>>>) -> (r: Option<
        (Vec<ScheduleHour>, String, bool),
    >)
        ensures
            exists|now: i64| #[trigger] serves(stored, now as int, self.ttl_spec(), r),
    {
        self.lookup(stored)
    }

    /// A timetable stamped for storing.
    pub fn save_schedule(&self, schedule: Vec<ScheduleHour>) -> (r: CachedData<Vec<ScheduleHour>>)
        ensures
            r.data == schedule,
    {
        CachedData::new(schedule)
    }

    /// A student's cached events as they stand now.
    pub fn get_events(&self, stored: Option<CachedData<Vec<Event>>>) -> (r: Option<
        (Vec<Event>, String, bool),
    >)
        ensures
            exists|now: i64| #[trigger] serves(stored, now as int, self.ttl_spec(), r),
    {
        self.lookup(stored)
    }

    /// Events stamped for storing.
    pub fn save_events(&self, events: Vec<Event>) -> (r: CachedData<Vec<Event>>)
        ensures
            r.data == events,
    {
        CachedData::new(events)
    }

    /// The cached notifications as they stand now.
    pub fn get_notifications(&self, stored: Option<CachedData<Vec<Notification>>>) -> (r: Option<
        (Vec<Notification>, String, bool),
    >)
        ensures
            exists|now: i64| #[trigger] serves(stored, now as int, self.ttl_spec(), r),
    {
        self.lookup(stored)
    }

    /// Notifications stamped for storing.
    pub fn save_notifications(&self, notifications: Vec<Notification>) -> (r: CachedData<
        Vec<Notification>,
    >)
        ensures
            r.data == notifications,
    {
        CachedData::new(notifications)
    }

    /// A student's cached absences as they stand now.
    pub fn get_absences(&self, stored: Option<CachedData<Vec<Absence>>>) -> (r: Option<
        (Vec<Absence>, String, bool),
    >)
        ensures
            exists|now: i64| #[trigger] serves(stored, now as int, self.ttl_spec(), r),
    {
        self.lookup(stored)
    }

    /// Absences stamped for storing.
    pub fn save_absences(&self, absences: Vec<Absence>) -> (r: CachedData<Vec<Absence>>)
        ensures
            r.data == absences,
    {
        CachedData::new(absences)
    }

    /// The cached message threads as they stand now.
    pub fn get_messages(&self, stored: Option<CachedData<Vec<MessageThread>>>) -> (r: Option<
        (Vec<MessageThread>, String, bool),
    >)
        ensures
            exists|now: i64| #[trigger] serves(stored, now as int, self.ttl_spec(), r),
    {
        self.lookup(stored)
    }

    /// Message threads stamped for storing.
    pub fn save_messages(&self, messages: Vec<MessageThread>) -> (r: CachedData<Vec<MessageThread>>)
        ensures
            r.data == messages,
    {
        CachedData::new(messages)
    }

    /// A student's cached feedback as it stands now.
    pub fn get_feedbacks(&self, stored: Option<CachedData<Vec<Feedback>>>) -> (r: Option<
        (Vec<Feedback>, String, bool),
    >)
        ensures
            exists|now: i64| #[trigger] serves(stored, now as int, self.ttl_spec(), r),
    {
        self.lookup(stored)
    }

    /// Feedback stamped for storing.
    pub fn save_feedbacks(&self, feedbacks: Vec<Feedback>) -> (r: CachedData<Vec<Feedback>>)
        ensures
            r.data == feedbacks,
    {
        CachedData::new(feedbacks)
    }
}

/// A record read back at the moment it was written is fresh, zero seconds
/// old and holds the written value; once more than the time-to-live has
/// passed it is stale and still holds the value.
pub proof fn law_fresh_then_stale<T>(v: T, t: i64, ttl: i64, later: int)
    requires
        ttl >= 0,
    ensures
        served(Some(CachedData { data: v, cached_at: t }), t as int, ttl as int) == Some(
            (v, "0s ago"@, false),
        ),
        later - t > ttl ==> served(Some(CachedData { data: v, cached_at: t }), later, ttl as int)
            == Some((v, age_text(later - t), true)),
{
    reveal_strlit("0s ago");
    reveal_strlit("s ago");
    assert(decimal(0) =~= seq!['0']);
    assert(signed_decimal(0) + "s ago"@ =~= "0s ago"@);
}

} // verus!
