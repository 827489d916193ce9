//! The lessons of a schedule, grouped by the day of the week.

use crate::calendar::{weekday_of, weekday_of_date};
use crate::resources::lesson::{Lesson, LessonView};
use crate::sequences::{
    lemma_concat_counts, lemma_filter_all, lemma_filter_keeps_order, lemma_filter_none,
    lemma_filter_split, positions,
};
use crate::text::{
    chars_of, digit_char, digit_of, digit_text, digit_value, is_digit, is_digit_char,
};
use vstd::prelude::*;

verus! {

/// The test that a lesson falls on the day `day` of the week.
pub open spec fn on_weekday(day: int) -> spec_fn(LessonView) -> bool {
    |lesson: LessonView| weekday_of_date(lesson.date) == day
}

/// The lessons of `lessons` that fall on the day `day` of the week, in the
/// order in which they stand in `lessons`.
pub open spec fn lessons_on(lessons: Seq<LessonView>, day: int) -> Seq<LessonView> {
    lessons.filter(on_weekday(day))
}

/// The seven groups of `lessons`, from Monday's to Sunday's.
pub open spec fn by_weekday(lessons: Seq<LessonView>) -> Seq<Seq<LessonView>> {
    Seq::new(7, |day: int| lessons_on(lessons, day))
}

/// Whether `key` is the one digit of a day of `days` that has lessons.
pub open spec fn is_key_of(days: Seq<Seq<LessonView>>, key: Seq<char>) -> bool {
    &&& key.len() == 1
    &&& is_digit(key[0])
    &&& digit_value(key[0]) < days.len()
    &&& days[digit_value(key[0])].len() > 0
}

/// The groups as a mapping: the key of a day is its number from Monday (0)
/// in decimal, and a day is in the mapping where it has a lesson.
pub open spec fn keyed(days: Seq<Seq<LessonView>>) -> Map<Seq<char>, Seq<LessonView>> {
    Map::new(|key: Seq<char>| is_key_of(days, key), |key: Seq<char>| days[digit_value(key[0])])
}

/// The key of a day of the week: its number from Monday (0), in decimal.
pub open spec fn weekday_key(day: int) -> Seq<char> {
    seq![digit_char(day)]
}

/// The test that a lesson falls on one of the days before `day`.
pub open spec fn before_weekday(day: int) -> spec_fn(LessonView) -> bool {
    |lesson: LessonView| 0 <= weekday_of_date(lesson.date) < day
}

/// The keys and groups of the first `n` days that have lessons, ascending.
pub open spec fn entries_of(days: Seq<Seq<LessonView>>, n: int) -> Seq<
    (Seq<char>, Seq<LessonView>),
>
    decreases n,
{
    if n <= 0 {
        Seq::empty()
    } else if days[n - 1].len() > 0 {
        entries_of(days, n - 1).push((weekday_key(n - 1), days[n - 1]))
    } else {
        entries_of(days, n - 1)
    }
}

/// Every lesson falls on one of the seven days of the week.
pub open spec fn all_on_weekdays(lessons: Seq<LessonView>) -> bool {
    forall|i: int|
        0 <= i < lessons.len() ==> 0 <= weekday_of_date((#[trigger] lessons[i]).date) < 7
}

proof fn lemma_first_days_count(lessons: Seq<LessonView>, n: int)
    requires
        0 <= n <= 7,
    ensures
        by_weekday(lessons).take(n).flatten().to_multiset() == lessons.filter(
            before_weekday(n),
        ).to_multiset(),
    decreases n,
{
    let days = by_weekday(lessons);
    if n == 0 {
        lemma_filter_none(lessons, before_weekday(0));
    } else {
        lemma_first_days_count(lessons, n - 1);
        let head = days.take(n - 1);
        assert(days.take(n) =~= head.push(days[n - 1]));
        head.lemma_flatten_push(days[n - 1]);
        lemma_concat_counts(head.flatten(), days[n - 1]);
        lemma_filter_split(
            lessons,
            before_weekday(n - 1),
            on_weekday(n - 1),
            before_weekday(n),
        );
    }
}

/// Grouping a schedule drops no lesson and doubles none: the seven groups,
/// one after the other from Monday's on, hold the lessons of the schedule,
/// each as often as the schedule does, and as many in all.
pub proof fn lemma_grouping_keeps_every_lesson(lessons: Seq<LessonView>)
    requires
        all_on_weekdays(lessons),
    ensures
        by_weekday(lessons).flatten().to_multiset() == lessons.to_multiset(),
        by_weekday(lessons).flatten().len() == lessons.len(),
{
    let days = by_weekday(lessons);
    lemma_first_days_count(lessons, 7);
    assert(days.take(7) =~= days);
    lemma_filter_all(lessons, before_weekday(7));
    days.flatten().to_multiset_ensures();
    lessons.to_multiset_ensures();
}

/// A group holds its lessons in the order of the schedule: the group of a
/// day is, item by item, the schedule at the positions of the lessons of
/// that day, and these positions ascend.
pub proof fn lemma_grouping_keeps_order(lessons: Seq<LessonView>, day: int)
    ensures
        positions(lessons, on_weekday(day)).len() == lessons_on(lessons, day).len(),
        forall|k: int|
            0 <= k < lessons_on(lessons, day).len() ==> {
                let at = #[trigger] positions(lessons, on_weekday(day))[k];
                &&& 0 <= at < lessons.len()
                &&& lessons_on(lessons, day)[k] == lessons[at]
                &&& weekday_of_date(lessons[at].date) == day
            },
        forall|j: int, k: int|
            0 <= j < k < lessons_on(lessons, day).len() ==> #[trigger] positions(
                lessons,
                on_weekday(day),
            )[j] < #[trigger] positions(lessons, on_weekday(day))[k],
{
    lemma_filter_keeps_order(lessons, on_weekday(day));
}

/// The entries are the mapping, key by key: each entry is a key of the
/// mapping with its group, every key of the first `n` days has its entry,
/// and the days of the entries ascend.
pub proof fn lemma_entries_are_the_mapping(days: Seq<Seq<LessonView>>, n: int)
    requires
        0 <= n <= days.len(),
        n <= 10,
    ensures
        forall|k: int|
            0 <= k < entries_of(days, n).len() ==> {
                let entry = #[trigger] entries_of(days, n)[k];
                &&& is_key_of(days, entry.0)
                &&& digit_value(entry.0[0]) < n
                &&& entry.1 == keyed(days)[entry.0]
            },
        forall|j: int, k: int|
            0 <= j < k < entries_of(days, n).len() ==> digit_value(
                (#[trigger] entries_of(days, n)[j]).0[0],
            ) < digit_value((#[trigger] entries_of(days, n)[k]).0[0]),
        forall|key: Seq<char>|
            is_key_of(days, key) && digit_value(key[0]) < n ==> exists|k: int|
                0 <= k < entries_of(days, n).len() && (#[trigger] entries_of(days, n)[k]).0
                    == key,
    decreases n,
{
    if n > 0 {
        lemma_entries_are_the_mapping(days, n - 1);
        let before = entries_of(days, n - 1);
        let all = entries_of(days, n);
        assert forall|key: Seq<char>|
            is_key_of(days, key) && digit_value(key[0]) < n implies exists|k: int|
            0 <= k < all.len() && (#[trigger] all[k]).0 == key by {
            if digit_value(key[0]) < n - 1 {
                let k = choose|k: int| 0 <= k < before.len() && (#[trigger] before[k]).0 == key;
                assert(all[k] == before[k]);
            } else {
                assert(all[all.len() - 1].0 == key);
            }
        }
    }
}

/// The lessons of a schedule by the day of the week on which they fall.
#[derive(Debug)]
pub struct WeekSchedule {
    days: Vec<Vec<Lesson>>,
}

impl WeekSchedule {
    #[verifier::type_invariant]
    spec fn seven_days(self) -> bool {
        self.days.len() == 7
    }

    /// The seven groups, from Monday's to Sunday's.
    pub closed spec fn days(&self) -> Seq<Seq<LessonView>> {
        Seq::new(7, |day: int| self.days@[day].deep_view())
    }
}

impl WeekSchedule {
    /// The lessons of the day `day` of the week, 0 for Monday and 6 for
    /// Sunday; none where `day` is no day of the week.
    pub fn day(&self, day: u8) -> (r: Option<&Vec<Lesson>>)
        ensures
            match r {
                Some(group) => day < 7 && group.deep_view() == self.days()[day as int],
                None => day >= 7,
            },
    {
        proof {
            use_type_invariant(self);
        }
        if day < 7 {
            Some(&self.days[day as usize])
        } else {
            None
        }
    }

    /// The lessons under the key `key`, where the mapping has that key.
    pub fn get(&self, key: &str) -> (r: Option<&Vec<Lesson>>)
        ensures
            match r {
                Some(group) => self@.dom().contains(key@) && group.deep_view() == self@[key@],
                None => !self@.dom().contains(key@),
            },
    {
        proof {
            use_type_invariant(self);
        }
        let chars = chars_of(key);
        if chars.len() != 1 || !is_digit_char(chars[0]) {
            return None;
        }
        let day: u8 = digit_of(chars[0]);
        if day >= 7 || self.days[day as usize].len() == 0 {
            return None;
        }
        Some(&self.days[day as usize])
    }

    /// The keys and their groups, the keys ascending.
    pub fn into_entries(self) -> (r: Vec<(String, Vec<Lesson>)>)
        ensures
            r.deep_view() == entries_of(self.days(), 7),
    {
        proof {
            use_type_invariant(&self);
        }
        let ghost days = self.days();
        let ghost source = self.days@;
        let mut entries: Vec<(String, Vec<Lesson>)> = Vec::new();
        let mut day: u8 = 0;
        for group in it: self.days.into_iter()
            invariant
                it.seq() == source,
                source.len() == 7,
                day == it.index(),
                days == Seq::new(7, |day: int| source[day].deep_view()),
                entries.deep_view() == entries_of(days, it.index() as int),
        {
            if group.len() > 0 {
                let key = String::from_str(digit_text(day));
                entries.push((key, group));
            }
            day = day + 1;
        }
        entries
    }
}

impl View for WeekSchedule {
    type V = Map<Seq<char>, Seq<LessonView>>;

    open spec fn view(&self) -> Map<Seq<char>, Seq<LessonView>> {
        keyed(self.days())
    }
}

/// Groups the lessons by the day of the week of their dates. A group holds
/// its lessons in the order in which they stand in `lessons`, and the groups
/// together hold every lesson as often as `lessons` does.
pub fn group_by_weekday(lessons: Vec<Lesson>) -> (r: WeekSchedule)
    ensures
        r.days() == by_weekday(lessons.deep_view()),
        r@ == keyed(by_weekday(lessons.deep_view())),
        all_on_weekdays(lessons.deep_view()),
        r.days().flatten().to_multiset() == lessons.deep_view().to_multiset(),
        r.days().flatten().len() == lessons.len(),
{
    let ghost source = lessons@;
    let ghost views = lessons.deep_view();
    let mut days: Vec<Vec<Lesson>> = Vec::new();
    let mut day: usize = 0;
    while day < 7
        invariant
            day <= 7,
            days.len() == day,
            forall|d: int| 0 <= d < day ==> (#[trigger] days@[d]).len() == 0,
        decreases 7 - day,
    {
        days.push(Vec::new());
        day = day + 1;
    }
    for lesson in it: lessons.into_iter()
        invariant
            it.seq() == source,
            views == Seq::new(source.len(), |i: int| source[i]@),
            days.len() == 7,
            all_on_weekdays(views.take(it.index() as int)),
            forall|d: int|
                0 <= d < 7 ==> (#[trigger] days@[d]).deep_view() == lessons_on(
                    views.take(it.index() as int),
                    d,
                ),
    {
        let ghost done = views.take(it.index() as int);
        let at: u8 = weekday_of(lesson.date().as_str());
        days[at as usize].push(lesson);
        proof {
            assert(done.push(lesson@) =~= views.take(it.index() + 1));
            assert forall|d: int| 0 <= d < 7 implies (#[trigger] days@[d]).deep_view()
                == lessons_on(views.take(it.index() + 1), d) by {
                done.lemma_filter_push(lesson@, on_weekday(d));
            }
        }
    }
    let r = WeekSchedule { days };
    proof {
        assert(views.take(source.len() as int) =~= views);
        lemma_grouping_keeps_every_lesson(views);
    }
    r
}

} // verus!
