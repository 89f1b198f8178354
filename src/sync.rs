use vstd::prelude::*;

use crate::models::{
    absence_from, event_from, feedback_from, feedback_order, homework_from, lesson_from,
    notification_from, student_from, thread_from, Absence, AbsenceRaw, ChildPupil, Event, EventRaw,
    Feedback, FeedbackRaw, Grade, Homework, HomeworkCourse, HomeworkItem, MessageThread, MessageThreadRaw,
    Notification, NotificationRaw, ScheduleHour, ScheduleHourRaw, SchoolYear, Student, User,
};
use crate::ordering::{in_order, lemma_text_order_all, sort_ranked, Ranked};
use crate::text::{
    compare_text, either_text, first_of, signed_decimal, signed_decimal_text, text_eq, text_less,
    text_of, text_or,
};

verus! {

// ---------------------------------------------------------------------
// Cache or refetch
// ---------------------------------------------------------------------

/// Whether a category must be fetched again: when forced, when nothing is
/// cached, or when the cached record is stale.
pub open spec fn needs_refresh(force: bool, cached_expired: Option<bool>) -> bool {
    force || cached_expired != Some(false)
}

/// Decides whether to fetch a category again; `cached_expired` is the
/// staleness of the cached record, `None` when there is none.
pub fn should_refresh(force: bool, cached_expired: Option<bool>) -> (r: bool)
    ensures
        r == needs_refresh(force, cached_expired),
{
    match cached_expired {
        Some(expired) => force || expired,
        None => true,
    }
}

/// What a category shows after a refresh round: fresh data ("just now")
/// when it was fetched, else the cached record with its age, else nothing.
/// A failed fetch never discards what the cache held.
pub open spec fn settled<T>(need: bool, fetched: Option<T>, cached: Option<(T, Seq<char>)>) -> Option<
    (T, Seq<char>),
> {
    if need && fetched is Some {
        Some((fetched->0, "just now"@))
    } else {
        cached
    }
}

/// Chooses what a category shows after a refresh round, and whether the
/// fetched value must be written to the cache.
pub fn settle<T>(need: bool, fetched: Option<T>, cached: Option<(T, String, bool)>) -> (r: (
    Option<(T, String)>,
    bool,
))
    ensures
        r.1 == (need && fetched is Some),
        match settled(
            need,
            fetched,
            match cached {
                Some((v, a, _e)) => Some((v, a@)),
                None => None,
            },
        ) {
            Some((v, a)) => r.0 matches Some((x, y)) && x == v && y@ == a,
            None => r.0 is None,
        },
{
    if need {
        if let Some(v) = fetched {
            return (Some((v, "just now".to_owned())), true);
        }
    }
    match cached {
        Some((v, a, _e)) => (Some((v, a)), false),
        None => (None, false),
    }
}

// ---------------------------------------------------------------------
// Homework
// ---------------------------------------------------------------------

/// The pending count the course list reports for a course group: the first
/// entry keyed by the group id in decimal, 0 when there is none.
pub open spec fn pending_count(counts: Seq<(String, i64)>, id: i64) -> i64
    decreases counts.len(),
{
    if counts.len() == 0 {
        0
    } else if counts[0].0@ == signed_decimal(id as int) {
        counts[0].1
    } else {
        pending_count(counts.drop_first(), id)
    }
}

/// The label a course's homework is filed under: its short name, else its
/// name, else "Unknown".
pub open spec fn course_label(c: HomeworkCourse) -> Seq<char> {
    text_of(first_of(c.course_short_name, c.course_name), "Unknown"@)
}

/// Course groups whose homework is fetched, with their labels: every
/// course with a group id and a nonzero pending count, in order.
pub open spec fn homework_groups(courses: Seq<HomeworkCourse>, counts: Seq<(String, i64)>) -> Seq<
    (i64, Seq<char>),
>
    decreases courses.len(),
{
    if courses.len() == 0 {
        Seq::empty()
    } else {
        let rest = homework_groups(courses.drop_last(), counts);
        let c = courses.last();
        match c.cyc_group_id {
            Some(id) => if pending_count(counts, id) != 0 {
                rest.push((id, course_label(c)))
            } else {
                rest
            },
            None => rest,
        }
    }
}

fn count_for(counts: &Vec<(String, i64)>, id: i64) -> (r: i64)
    ensures
        r == pending_count(counts@, id),
{
    let key = signed_decimal_text(id as i128);
    let mut i: usize = 0;
    assert(counts@.subrange(0, counts@.len() as int) =~= counts@);
    while i < counts.len()
        invariant
            i <= counts@.len(),
            key@ == signed_decimal(id as int),
            pending_count(counts@, id) == pending_count(counts@.subrange(i as int, counts@.len() as int), id),
        decreases counts@.len() - i,
    {
        let ghost rest = counts@.subrange(i as int, counts@.len() as int);
        proof {
            assert(rest.drop_first() =~= counts@.subrange(i + 1, counts@.len() as int));
            assert(rest[0] == counts@[i as int]);
        }
        if text_eq(counts[i].0.as_str(), key.as_str()) {
            return counts[i].1;
        }
        i += 1;
    }
    0
}

/// The course groups to fetch homework for, with their labels.
pub fn homework_courses(courses: &Vec<HomeworkCourse>, counts: &Vec<(String, i64)>) -> (r: Vec<
    (i64, String),
>)
    ensures
        r@.len() == homework_groups(courses@, counts@).len(),
        forall|k: int|
            0 <= k < r@.len() ==> (#[trigger] r@[k]).0 == homework_groups(courses@, counts@)[k].0
                && r@[k].1@ == homework_groups(courses@, counts@)[k].1,
{
    let mut out: Vec<(i64, String)> = Vec::new();
    let mut i: usize = 0;
    while i < courses.len()
        invariant
            i <= courses@.len(),
            out@.len() == homework_groups(courses@.subrange(0, i as int), counts@).len(),
            forall|k: int|
                0 <= k < out@.len() ==> (#[trigger] out@[k]).0 == homework_groups(
                    courses@.subrange(0, i as int),
                    counts@,
                )[k].0 && out@[k].1@ == homework_groups(courses@.subrange(0, i as int), counts@)[k].1,
        decreases courses@.len() - i,
    {
        proof {
            assert(courses@.subrange(0, i + 1).drop_last() =~= courses@.subrange(0, i as int));
        }
        let c = &courses[i];
        if let Some(id) = c.cyc_group_id {
            if count_for(counts, id) != 0 {
                let label = text_or(&either_text(&c.course_short_name, &c.course_name), "Unknown");
                out.push((id, label));
            }
        }
        i += 1;
    }
    proof {
        assert(courses@.subrange(0, i as int) =~= courses@);
    }
    out
}

/// The items of every course whose list was fetched, each with its
/// course's label, in course order; courses whose fetch failed are skipped.
pub open spec fn fetched_items(fetched: Seq<(String, Option<Vec<HomeworkItem>>)>) -> Seq<
    (HomeworkItem, Seq<char>),
>
    decreases fetched.len(),
{
    if fetched.len() == 0 {
        Seq::empty()
    } else {
        let rest = fetched_items(fetched.drop_last());
        let (label, items) = fetched.last();
        match items {
            Some(list) => rest + list@.map_values(|i: HomeworkItem| (i, label@)),
            None => rest,
        }
    }
}

/// `hw` are the homework entries of `items`, one for one.
pub open spec fn homework_of_items(hw: Seq<Homework>, items: Seq<(HomeworkItem, Seq<char>)>) -> bool {
    &&& hw.len() == items.len()
    &&& forall|k: int| 0 <= k < hw.len() ==> homework_from(items[k].0, items[k].1, #[trigger] hw[k])
}

/// Homework entries for every fetched course list, in course order; a
/// course whose fetch failed contributes nothing and stops nothing.
pub fn collect_homework(fetched: &Vec<(String, Option<Vec<HomeworkItem>>)>) -> (r: Vec<Homework>)
    ensures
        homework_of_items(r@, fetched_items(fetched@)),
{
    let mut out: Vec<Homework> = Vec::new();
    let mut i: usize = 0;
    while i < fetched.len()
        invariant
            i <= fetched@.len(),
            homework_of_items(out@, fetched_items(fetched@.subrange(0, i as int))),
        decreases fetched@.len() - i,
    {
        proof {
            assert(fetched@.subrange(0, i + 1).drop_last() =~= fetched@.subrange(0, i as int));
        }
        let label = &fetched[i].0;
        match &fetched[i].1 {
            Some(items) => {
                let ghost base = out@;
                let ghost prior = fetched_items(fetched@.subrange(0, i as int));
                let mut j: usize = 0;
                while j < items.len()
                    invariant
                        j <= items@.len(),
                        base.len() == prior.len(),
                        out@.len() == base.len() + j,
                        out@.subrange(0, base.len() as int) == base,
                        homework_of_items(base, prior),
                        forall|k: int|
                            0 <= k < j ==> homework_from(
                                items@[k],
                                label@,
                                #[trigger] out@[base.len() + k],
                            ),
                    decreases items@.len() - j,
                {
                    let h = Homework::from_item(&items[j], label.as_str());
                    out.push(h);
                    proof {
                        assert(out@.subrange(0, base.len() as int) =~= base);
                    }
                    j += 1;
                }
                proof {
                    let added = items@.map_values(|it: HomeworkItem| (it, label@));
                    let all = prior + added;
                    assert(fetched_items(fetched@.subrange(0, i + 1)) == all);
                    assert forall|k: int| 0 <= k < out@.len() implies homework_from(
                        all[k].0,
                        all[k].1,
                        #[trigger] out@[k],
                    ) by {
                        if k < base.len() {
                            assert(out@[k] == base[k]);
                        } else {
                            assert(out@[base.len() + (k - base.len())] == out@[k]);
                        }
                    }
                }
            },
            None => {},
        }
        i += 1;
    }
    proof {
        assert(fetched@.subrange(0, i as int) =~= fetched@);
    }
    out
}

/// Optional texts ordered with absence first.
pub open spec fn option_text_less(a: Option<String>, b: Option<String>) -> bool {
    match (a, b) {
        (None, Some(_)) => true,
        (Some(x), Some(y)) => text_less(x@, y@),
        _ => false,
    }
}

/// Homework is listed newest first by its sortable date.
impl Ranked for Homework {
    open spec fn precedes(self, other: Self) -> bool {
        option_text_less(other.date_sort, self.date_sort)
    }

    fn precedes_exec(&self, other: &Self) -> (r: bool) {
        match (&other.date_sort, &self.date_sort) {
            (None, Some(_)) => true,
            (Some(x), Some(y)) => match compare_text(x.as_str(), y.as_str()) {
                core::cmp::Ordering::Less => true,
                _ => false,
            },
            _ => false,
        }
    }

    proof fn lemma_strict_weak(a: Self, b: Self, c: Self) {
        match (a.date_sort, b.date_sort, c.date_sort) {
            (Some(x), Some(y), Some(z)) => lemma_text_order_all(x@, y@, z@),
            (Some(x), Some(y), None) => lemma_text_order_all(x@, y@, y@),
            (Some(x), None, Some(z)) => lemma_text_order_all(x@, z@, z@),
            (None, Some(y), Some(z)) => lemma_text_order_all(y@, z@, z@),
            (Some(x), None, None) => lemma_text_order_all(x@, x@, x@),
            (None, Some(y), None) => lemma_text_order_all(y@, y@, y@),
            (None, None, Some(z)) => lemma_text_order_all(z@, z@, z@),
            _ => {},
        }
    }
}

/// Sorts homework newest first.
pub fn sort_homework(v: Vec<Homework>) -> (r: Vec<Homework>)
    ensures
        r@.to_multiset() == v@.to_multiset(),
        in_order(r@),
{
    sort_ranked(v)
}

/// A student's homework from the fetched course lists: the entries of every
/// list that came back, newest first.
pub fn assemble_homework(fetched: &Vec<(String, Option<Vec<HomeworkItem>>)>) -> (r: Vec<Homework>)
    ensures
        in_order(r@),
        exists|c: Seq<Homework>|
            #![trigger homework_of_items(c, fetched_items(fetched@))]
            homework_of_items(c, fetched_items(fetched@)) && r@.to_multiset() == c.to_multiset(),
{
    let collected = collect_homework(fetched);
    let ghost c = collected@;
    let r = sort_homework(collected);
    assert(homework_of_items(c, fetched_items(fetched@)));
    r
}

/// When the first of two courses is fetched and the second fails, every
/// item of the first course is kept, in order, and nothing else.
pub proof fn law_failed_course_skipped(first: String, items: Vec<HomeworkItem>, second: String)
    ensures
        fetched_items(seq![(first, Some(items)), (second, None::<Vec<HomeworkItem>>)])
            == items@.map_values(|i: HomeworkItem| (i, first@)),
{
    reveal_with_fuel(fetched_items, 3);
    let f = seq![(first, Some(items)), (second, None::<Vec<HomeworkItem>>)];
    assert(f.drop_last() =~= seq![(first, Some(items))]);
    assert(f.drop_last().drop_last() =~= Seq::<(String, Option<Vec<HomeworkItem>>)>::empty());
    assert(Seq::<(HomeworkItem, Seq<char>)>::empty() + items@.map_values(
        |i: HomeworkItem| (i, first@),
    ) =~= items@.map_values(|i: HomeworkItem| (i, first@)));
}

// ---------------------------------------------------------------------
// School year
// ---------------------------------------------------------------------

/// Largest id among `years`, if any.
pub open spec fn max_year(years: Seq<SchoolYear>) -> Option<i64>
    decreases years.len(),
{
    if years.len() == 0 {
        None
    } else {
        match max_year(years.drop_last()) {
            Some(m) => if years.last().id > m {
                Some(years.last().id)
            } else {
                Some(m)
            },
            None => Some(years.last().id),
        }
    }
}

/// The school year a session works in: the latest year of the first user
/// that lists any.
pub open spec fn chosen_year(users: Seq<User>) -> Option<i64>
    decreases users.len(),
{
    if users.len() == 0 {
        None
    } else {
        let first = match users[0].years {
            Some(y) => max_year(y@),
            None => None,
        };
        if first is Some {
            first
        } else {
            chosen_year(users.drop_first())
        }
    }
}

fn latest_year(years: &Vec<SchoolYear>) -> (r: Option<i64>)
    ensures
        r == max_year(years@),
{
    let mut best: Option<i64> = None;
    let mut i: usize = 0;
    while i < years.len()
        invariant
            i <= years@.len(),
            best == max_year(years@.subrange(0, i as int)),
        decreases years@.len() - i,
    {
        proof {
            assert(years@.subrange(0, i + 1).drop_last() =~= years@.subrange(0, i as int));
        }
        let id = years[i].id;
        best = match best {
            Some(m) => if id > m {
                Some(id)
            } else {
                Some(m)
            },
            None => Some(id),
        };
        i += 1;
    }
    proof {
        assert(years@.subrange(0, i as int) =~= years@);
    }
    best
}

/// Picks the school year to work in after signing in.
pub fn select_school_year(users: &Vec<User>) -> (r: Option<i64>)
    ensures
        r == chosen_year(users@),
{
    let mut i: usize = 0;
    assert(users@.subrange(0, users@.len() as int) =~= users@);
    while i < users.len()
        invariant
            i <= users@.len(),
            chosen_year(users@) == chosen_year(users@.subrange(i as int, users@.len() as int)),
        decreases users@.len() - i,
    {
        let ghost rest = users@.subrange(i as int, users@.len() as int);
        proof {
            assert(rest.drop_first() =~= users@.subrange(i + 1, users@.len() as int));
            assert(rest[0] == users@[i as int]);
        }
        if let Some(years) = &users[i].years {
            let m = latest_year(years);
            if m.is_some() {
                return m;
            }
        }
        i += 1;
    }
    None
}

// ---------------------------------------------------------------------
// Other categories
// ---------------------------------------------------------------------

/// The list under the first of two payload field names that is present.
pub open spec fn first_list<T>(a: Option<Vec<T>>, b: Option<Vec<T>>) -> Seq<T> {
    match a {
        Some(v) => v@,
        None => match b {
            Some(v) => v@,
            None => Seq::empty(),
        },
    }
}

/// The list under the first of two payload field names that is present,
/// empty when neither is.
pub fn either_list<T>(a: Option<Vec<T>>, b: Option<Vec<T>>) -> (r: Vec<T>)
    ensures
        r@ == first_list(a, b),
{
    match a {
        Some(v) => v,
        None => match b {
            Some(v) => v,
            None => Vec::new(),
        },
    }
}

/// The subjects of `grades` that have any grade recorded, in order.
pub open spec fn graded(grades: Seq<Grade>) -> Seq<Grade> {
    grades.filter(|g: Grade| g.term1_grades@.len() > 0 || g.term2_grades@.len() > 0
        || g.term1_final is Some || g.term2_final is Some || g.annual is Some)
}

/// Keeps the subjects that have any grade recorded.
pub fn graded_only(grades: Vec<Grade>) -> (r: Vec<Grade>)
    ensures
        r@ == graded(grades@),
{
    let mut rest = grades;
    let ghost all = rest@;
    let mut kept_rev: Vec<Grade> = Vec::new();
    while rest.len() > 0
        invariant
            graded(all) == graded(rest@) + kept_rev@,
        decreases rest@.len(),
    {
        let ghost before = rest@;
        let g = rest.pop().unwrap();
        proof {
            assert(before.drop_last() =~= rest@);
            assert(before.last() == g);
            reveal(Seq::<Grade>::filter);
        }
        if g.has_grades() {
            let ghost prev = kept_rev@;
            kept_rev.insert(0, g);
            proof {
                assert(kept_rev@ =~= seq![g] + prev);
                assert(graded(before) == graded(rest@).push(g));
                assert(graded(rest@).push(g) + prev =~= graded(rest@) + kept_rev@);
            }
        } else {
            proof {
                assert(graded(before) == graded(rest@));
            }
        }
    }
    proof {
        assert(rest@ =~= Seq::<Grade>::empty());
        reveal(Seq::<Grade>::filter);
        assert(graded(rest@) =~= Seq::<Grade>::empty());
        assert(graded(all) =~= kept_rev@);
    }
    kept_rev
}

/// Lessons are listed by hour.
impl Ranked for ScheduleHour {
    open spec fn precedes(self, other: Self) -> bool {
        self.hour_number < other.hour_number
    }

    fn precedes_exec(&self, other: &Self) -> (r: bool) {
        self.hour_number < other.hour_number
    }

    proof fn lemma_strict_weak(a: Self, b: Self, c: Self) {
    }
}

/// A day's timetable from its payload, ordered by hour.
pub fn schedule_from(raw: &Vec<ScheduleHourRaw>) -> (r: Vec<ScheduleHour>)
    ensures
        r@.len() == raw@.len(),
        in_order(r@),
        exists|c: Seq<ScheduleHour>|
            #![trigger c.to_multiset()]
            c.len() == raw@.len() && (forall|k: int| 0 <= k < c.len() ==> lesson_from(raw@[k], #[trigger] c[k]))
                && r@.to_multiset() == c.to_multiset(),
{
    let mut out: Vec<ScheduleHour> = Vec::new();
    let mut i: usize = 0;
    while i < raw.len()
        invariant
            i <= raw@.len(),
            out@.len() == i,
            forall|k: int| 0 <= k < i ==> lesson_from(raw@[k], #[trigger] out@[k]),
        decreases raw@.len() - i,
    {
        out.push(ScheduleHour::from_raw(&raw[i]));
        i += 1;
    }
    let ghost c = out@;
    let r = sort_ranked(out);
    proof {
        vstd::seq_lib::to_multiset_len(r@);
        vstd::seq_lib::to_multiset_len(c);
        assert(c.to_multiset() == r@.to_multiset());
    }
    r
}

/// Absences are listed newest date first, then by hour, then by subject.
impl Ranked for Absence {
    open spec fn precedes(self, other: Self) -> bool {
        ||| text_less(other.date_sort@, self.date_sort@)
        ||| (self.date_sort@ == other.date_sort@ && self.hour < other.hour)
        ||| (self.date_sort@ == other.date_sort@ && self.hour == other.hour && text_less(
            self.subject@,
            other.subject@,
        ))
    }

    fn precedes_exec(&self, other: &Self) -> (r: bool) {
        match compare_text(other.date_sort.as_str(), self.date_sort.as_str()) {
            core::cmp::Ordering::Less => true,
            core::cmp::Ordering::Greater => false,
            core::cmp::Ordering::Equal => {
                if self.hour != other.hour {
                    self.hour < other.hour
                } else {
                    match compare_text(self.subject.as_str(), other.subject.as_str()) {
                        core::cmp::Ordering::Less => true,
                        _ => false,
                    }
                }
            },
        }
    }

    proof fn lemma_strict_weak(a: Self, b: Self, c: Self) {
        lemma_text_order_all(a.date_sort@, b.date_sort@, c.date_sort@);
        lemma_text_order_all(a.subject@, b.subject@, c.subject@);
    }
}

/// Absences from their payload, newest first with ties broken by hour and
/// subject.
pub fn absences_from(raw: &Vec<AbsenceRaw>) -> (r: Vec<Absence>)
    ensures
        r@.len() == raw@.len(),
        in_order(r@),
        exists|c: Seq<Absence>|
            #![trigger c.to_multiset()]
            c.len() == raw@.len() && (forall|k: int| 0 <= k < c.len() ==> absence_from(raw@[k], #[trigger] c[k]))
                && r@.to_multiset() == c.to_multiset(),
{
    let mut out: Vec<Absence> = Vec::new();
    let mut i: usize = 0;
    while i < raw.len()
        invariant
            i <= raw@.len(),
            out@.len() == i,
            forall|k: int| 0 <= k < i ==> absence_from(raw@[k], #[trigger] out@[k]),
        decreases raw@.len() - i,
    {
        out.push(Absence::from_raw(&raw[i]));
        i += 1;
    }
    let ghost c = out@;
    let r = sort_ranked(out);
    proof {
        vstd::seq_lib::to_multiset_len(r@);
        vstd::seq_lib::to_multiset_len(c);
        assert(c.to_multiset() == r@.to_multiset());
    }
    r
}

/// Feedback is listed newest date first, then by subject, then by id.
impl Ranked for Feedback {
    open spec fn precedes(self, other: Self) -> bool {
        feedback_order(self, other) == core::cmp::Ordering::Less
    }

    fn precedes_exec(&self, other: &Self) -> (r: bool) {
        match Feedback::cmp_by_date(self, other) {
            core::cmp::Ordering::Less => true,
            _ => false,
        }
    }

    proof fn lemma_strict_weak(a: Self, b: Self, c: Self) {
        lemma_text_order_all(a.subject@, b.subject@, c.subject@);
    }
}

/// Feedback from its payload, newest first with ties broken by subject
/// and id.
pub fn feedbacks_from(raw: &Vec<FeedbackRaw>) -> (r: Vec<Feedback>)
    ensures
        r@.len() == raw@.len(),
        in_order(r@),
        exists|c: Seq<Feedback>|
            #![trigger c.to_multiset()]
            c.len() == raw@.len() && (forall|k: int| 0 <= k < c.len() ==> feedback_from(raw@[k], #[trigger] c[k]))
                && r@.to_multiset() == c.to_multiset(),
{
    let mut out: Vec<Feedback> = Vec::new();
    let mut i: usize = 0;
    while i < raw.len()
        invariant
            i <= raw@.len(),
            out@.len() == i,
            forall|k: int| 0 <= k < i ==> feedback_from(raw@[k], #[trigger] out@[k]),
        decreases raw@.len() - i,
    {
        out.push(Feedback::from_raw(&raw[i]));
        i += 1;
    }
    let ghost c = out@;
    let r = sort_ranked(out);
    proof {
        vstd::seq_lib::to_multiset_len(r@);
        vstd::seq_lib::to_multiset_len(c);
        assert(c.to_multiset() == r@.to_multiset());
    }
    r
}

/// Students are listed by name.
impl Ranked for Student {
    open spec fn precedes(self, other: Self) -> bool {
        text_less(self.name@, other.name@)
    }

    fn precedes_exec(&self, other: &Self) -> (r: bool) {
        match compare_text(self.name.as_str(), other.name.as_str()) {
            core::cmp::Ordering::Less => true,
            _ => false,
        }
    }

    proof fn lemma_strict_weak(a: Self, b: Self, c: Self) {
        lemma_text_order_all(a.name@, b.name@, c.name@);
    }
}

/// The linked students from the roster's entries, ordered by name.
pub fn students_from(pupils: &Vec<(String, ChildPupil)>) -> (r: Vec<Student>)
    ensures
        r@.len() == pupils@.len(),
        in_order(r@),
        exists|c: Seq<Student>|
            #![trigger c.to_multiset()]
            c.len() == pupils@.len() && (forall|k: int|
                0 <= k < c.len() ==> student_from(pupils@[k].0@, pupils@[k].1, #[trigger] c[k]))
                && r@.to_multiset() == c.to_multiset(),
{
    let mut out: Vec<Student> = Vec::new();
    let mut i: usize = 0;
    while i < pupils.len()
        invariant
            i <= pupils@.len(),
            out@.len() == i,
            forall|k: int| 0 <= k < i ==> student_from(pupils@[k].0@, pupils@[k].1, #[trigger] out@[k]),
        decreases pupils@.len() - i,
    {
        out.push(Student::from_child_pupil(pupils[i].0.as_str(), &pupils[i].1));
        i += 1;
    }
    let ghost c = out@;
    let r = sort_ranked(out);
    proof {
        vstd::seq_lib::to_multiset_len(r@);
        vstd::seq_lib::to_multiset_len(c);
        assert(c.to_multiset() == r@.to_multiset());
    }
    r
}

/// Notifications from their payload, in payload order.
pub fn notifications_from(raw: &Vec<NotificationRaw>) -> (r: Vec<Notification>)
    ensures
        r@.len() == raw@.len(),
        forall|k: int| 0 <= k < r@.len() ==> notification_from(raw@[k], #[trigger] r@[k]),
{
    let mut out: Vec<Notification> = Vec::new();
    let mut i: usize = 0;
    while i < raw.len()
        invariant
            i <= raw@.len(),
            out@.len() == i,
            forall|k: int| 0 <= k < i ==> notification_from(raw@[k], #[trigger] out@[k]),
        decreases raw@.len() - i,
    {
        out.push(Notification::from_raw(&raw[i]));
        i += 1;
    }
    out
}

/// Events from their payload, in payload order.
pub fn events_from(raw: &Vec<EventRaw>) -> (r: Vec<Event>)
    ensures
        r@.len() == raw@.len(),
        forall|k: int| 0 <= k < r@.len() ==> event_from(raw@[k], #[trigger] r@[k]),
{
    let mut out: Vec<Event> = Vec::new();
    let mut i: usize = 0;
    while i < raw.len()
        invariant
            i <= raw@.len(),
            out@.len() == i,
            forall|k: int| 0 <= k < i ==> event_from(raw@[k], #[trigger] out@[k]),
        decreases raw@.len() - i,
    {
        out.push(Event::from_raw(&raw[i]));
        i += 1;
    }
    out
}

/// Message threads from their payload, in payload order.
pub fn threads_from(raw: &Vec<MessageThreadRaw>) -> (r: Vec<MessageThread>)
    ensures
        r@.len() == raw@.len(),
        forall|k: int| 0 <= k < r@.len() ==> thread_from(raw@[k], #[trigger] r@[k]),
{
    let mut out: Vec<MessageThread> = Vec::new();
    let mut i: usize = 0;
    while i < raw.len()
        invariant
            i <= raw@.len(),
            out@.len() == i,
            forall|k: int| 0 <= k < i ==> thread_from(raw@[k], #[trigger] out@[k]),
        decreases raw@.len() - i,
    {
        out.push(MessageThread::from_raw(&raw[i]));
        i += 1;
    }
    out
}

} // verus!
