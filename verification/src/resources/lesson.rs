//! Lessons of the schedule.

use crate::calendar::{is_calendar_date, is_clock_time};
use crate::resources::defaults::{
    date_or_sentinel, date_or_sentinel_text, lemma_sentinels_are_valid, or_placeholder,
    placeholder, sentinel_end, sentinel_start, text_or_placeholder, time_or, time_or_text,
};
use crate::text::{
    chars_of, contains, contains_chars, find_char, is_trimmed, lemma_trim_is_idempotent,
    occurs_at, text_contains, trim, trim_bounds,
};
use vstd::prelude::*;

verus! {

/// A lesson as the upstream service sends it.
#[derive(Debug)]
pub struct UnrefinedLesson {
    pub count: i8,
    pub date: Option<String>,
    pub start_time: Option<String>,
    pub end_time: Option<String>,
    pub nev: Option<String>,
    pub class_room: Option<String>,
    pub class_group: Option<String>,
    pub teacher: Option<String>,
    pub state_name: Option<String>,
    pub theme: Option<String>,
}

pub struct UnrefinedLessonView {
    pub count: int,
    pub date: Option<Seq<char>>,
    pub start_time: Option<Seq<char>>,
    pub end_time: Option<Seq<char>>,
    pub nev: Option<Seq<char>>,
    pub class_room: Option<Seq<char>>,
    pub class_group: Option<Seq<char>>,
    pub teacher: Option<Seq<char>>,
    pub state_name: Option<Seq<char>>,
    pub theme: Option<Seq<char>>,
}

impl View for UnrefinedLesson {
    type V = UnrefinedLessonView;

    open spec fn view(&self) -> UnrefinedLessonView {
        UnrefinedLessonView {
            count: self.count as int,
            date: self.date.deep_view(),
            start_time: self.start_time.deep_view(),
            end_time: self.end_time.deep_view(),
            nev: self.nev.deep_view(),
            class_room: self.class_room.deep_view(),
            class_group: self.class_group.deep_view(),
            teacher: self.teacher.deep_view(),
            state_name: self.state_name.deep_view(),
            theme: self.theme.deep_view(),
        }
    }
}

impl DeepView for UnrefinedLesson {
    type V = UnrefinedLessonView;

    open spec fn deep_view(&self) -> UnrefinedLessonView {
        self@
    }
}

/// A lesson in the stable schema. Its date is a calendar date and its two
/// times are times of day, whatever it was made of.
#[derive(Debug)]
pub struct Lesson {
    subject: String,
    date: String,
    start_of_class: String,
    end_of_class: String,
    period_number: i8,
    cancelled: bool,
    stand_in: bool,
    class_name: String,
    teacher: String,
    room: String,
    topic: String,
}

pub struct LessonView {
    pub subject: Seq<char>,
    pub date: Seq<char>,
    pub start_of_class: Seq<char>,
    pub end_of_class: Seq<char>,
    pub period_number: int,
    pub cancelled: bool,
    pub stand_in: bool,
    pub class_name: Seq<char>,
    pub teacher: Seq<char>,
    pub room: Seq<char>,
    pub topic: Seq<char>,
}

impl LessonView {
    pub open spec fn is_valid(self) -> bool {
        &&& is_calendar_date(self.date)
        &&& is_clock_time(self.start_of_class)
        &&& is_clock_time(self.end_of_class)
    }
}

impl View for Lesson {
    type V = LessonView;

    closed spec fn view(&self) -> LessonView {
        LessonView {
            subject: self.subject@,
            date: self.date@,
            start_of_class: self.start_of_class@,
            end_of_class: self.end_of_class@,
            period_number: self.period_number as int,
            cancelled: self.cancelled,
            stand_in: self.stand_in,
            class_name: self.class_name@,
            teacher: self.teacher@,
            room: self.room@,
            topic: self.topic@,
        }
    }
}

impl DeepView for Lesson {
    type V = LessonView;

    open spec fn deep_view(&self) -> LessonView {
        self@
    }
}

/// The text in a lesson's state that says that the lesson did not take place.
pub open spec fn cancel_marker() -> Seq<char> {
    "Elmaradt"@
}

/// The text in a lesson's teacher that says that a substitute holds it.
pub open spec fn substitute_marker() -> Seq<char> {
    "Helyettes"@
}

/// A lesson is cancelled where its state holds the cancel marker.
pub open spec fn is_cancelled(state_name: Option<Seq<char>>) -> bool {
    match state_name {
        Some(state) => contains(state, cancel_marker()),
        None => false,
    }
}

/// A substitute holds a lesson where its teacher holds the substitute marker.
pub open spec fn is_stand_in(teacher: Option<Seq<char>>) -> bool {
    match teacher {
        Some(name) => contains(name, substitute_marker()),
        None => false,
    }
}

/// The teacher's name in an upstream teacher text. With the substitute
/// marker in it, the name is what follows the first colon, trimmed; where no
/// colon follows, and without the marker, the text is the name.
pub open spec fn teacher_name(raw: Seq<char>) -> Seq<char> {
    if contains(raw, substitute_marker()) {
        match raw.index_of_first(':') {
            Some(colon) => trim(raw.skip(colon + 1)),
            None => raw,
        }
    } else {
        raw
    }
}

/// The stable lesson that is made of an upstream lesson.
pub open spec fn refined_lesson(raw: UnrefinedLessonView) -> LessonView {
    LessonView {
        subject: or_placeholder(raw.nev),
        date: date_or_sentinel(raw.date),
        start_of_class: time_or(raw.start_time, sentinel_start()),
        end_of_class: time_or(raw.end_time, sentinel_end()),
        period_number: raw.count,
        cancelled: is_cancelled(raw.state_name),
        stand_in: is_stand_in(raw.teacher),
        class_name: or_placeholder(raw.class_group),
        teacher: match raw.teacher {
            Some(name) => teacher_name(name),
            None => placeholder(),
        },
        room: or_placeholder(raw.class_room),
        topic: or_placeholder(raw.theme),
    }
}

/// Whether a lesson's state says that it did not take place.
pub fn has_cancel_marker(state_name: &str) -> (r: bool)
    ensures
        r == contains(state_name@, cancel_marker()),
{
    text_contains(state_name, "Elmaradt")
}

/// Whether a lesson's teacher text says that a substitute holds it.
pub fn has_substitute_marker(teacher: &str) -> (r: bool)
    ensures
        r == contains(teacher@, substitute_marker()),
{
    text_contains(teacher, "Helyettes")
}

/// The teacher's name in an upstream teacher text.
pub fn teacher_name_of(teacher: String) -> (r: String)
    ensures
        r@ == teacher_name(teacher@),
{
    let chars = chars_of(teacher.as_str());
    let marker = chars_of("Helyettes");
    if contains_chars(&chars, &marker) {
        match find_char(&chars, ':') {
            Some(colon) => {
                let bounds = trim_bounds(&chars, colon + 1);
                teacher.as_str().substring_char(bounds.0, bounds.1).to_owned()
            },
            None => teacher,
        }
    } else {
        teacher
    }
}

impl UnrefinedLesson {
    /// Makes the stable lesson of an upstream lesson. Every input has a
    /// result.
    pub fn refine(self) -> (r: Lesson)
        ensures
            r@ == refined_lesson(self@),
    {
        proof {
            lemma_sentinels_are_valid();
        }
        let cancelled = match &self.state_name {
            Some(state) => has_cancel_marker(state.as_str()),
            None => false,
        };
        let stand_in = match &self.teacher {
            Some(name) => has_substitute_marker(name.as_str()),
            None => false,
        };
        let teacher = match self.teacher {
            Some(name) => teacher_name_of(name),
            None => String::from_str("-"),
        };
        Lesson {
            subject: text_or_placeholder(self.nev),
            date: date_or_sentinel_text(self.date),
            start_of_class: time_or_text(self.start_time, "09:00:00"),
            end_of_class: time_or_text(self.end_time, "09:45:00"),
            period_number: self.count,
            cancelled,
            stand_in,
            class_name: text_or_placeholder(self.class_group),
            teacher,
            room: text_or_placeholder(self.class_room),
            topic: text_or_placeholder(self.theme),
        }
    }
}

impl Lesson {
    #[verifier::type_invariant]
    pub open spec fn well_formed(self) -> bool {
        self@.is_valid()
    }

    pub fn subject(&self) -> (r: &String)
        ensures
            r@ == self@.subject,
    {
        &self.subject
    }

    pub fn date(&self) -> (r: &String)
        ensures
            r@ == self@.date,
            is_calendar_date(r@),
    {
        proof {
            use_type_invariant(self);
        }
        &self.date
    }

    pub fn start_of_class(&self) -> (r: &String)
        ensures
            r@ == self@.start_of_class,
            is_clock_time(r@),
    {
        proof {
            use_type_invariant(self);
        }
        &self.start_of_class
    }

    pub fn end_of_class(&self) -> (r: &String)
        ensures
            r@ == self@.end_of_class,
            is_clock_time(r@),
    {
        proof {
            use_type_invariant(self);
        }
        &self.end_of_class
    }

    pub fn period_number(&self) -> (r: i8)
        ensures
            r == self@.period_number,
    {
        self.period_number
    }

    pub fn cancelled(&self) -> (r: bool)
        ensures
            r == self@.cancelled,
    {
        self.cancelled
    }

    pub fn stand_in(&self) -> (r: bool)
        ensures
            r == self@.stand_in,
    {
        self.stand_in
    }

    pub fn class_name(&self) -> (r: &String)
        ensures
            r@ == self@.class_name,
    {
        &self.class_name
    }

    pub fn teacher(&self) -> (r: &String)
        ensures
            r@ == self@.teacher,
    {
        &self.teacher
    }

    pub fn room(&self) -> (r: &String)
        ensures
            r@ == self@.room,
    {
        &self.room
    }

    pub fn topic(&self) -> (r: &String)
        ensures
            r@ == self@.topic,
    {
        &self.topic
    }
}

/// The stable lessons that are made of upstream lessons, one of each, in
/// their order.
pub open spec fn refined_lessons(raw: Seq<UnrefinedLessonView>) -> Seq<LessonView> {
    Seq::new(raw.len(), |i: int| refined_lesson(raw[i]))
}

/// Refines every one of `raw`, in order.
pub fn refine_lessons(raw: Vec<UnrefinedLesson>) -> (r: Vec<Lesson>)
    ensures
        r.deep_view() == refined_lessons(raw.deep_view()),
{
    let ghost source = raw@;
    let mut refined: Vec<Lesson> = Vec::new();
    for item in it: raw.into_iter()
        invariant
            it.seq() == source,
            refined.len() == it.index(),
            forall|j: int| 0 <= j < refined.len() ==> (#[trigger] refined@[j])@ == refined_lesson(source[j]@),
    {
        refined.push(item.refine());
    }
    refined
}

/// Whether a lesson is cancelled hangs on its state alone: it is cancelled
/// where the state is there and holds the cancel marker, whatever the other
/// fields hold.
pub proof fn lemma_cancelled_by_state_alone(raw: UnrefinedLessonView, other: UnrefinedLessonView)
    requires
        raw.state_name == other.state_name,
    ensures
        refined_lesson(raw).cancelled == refined_lesson(other).cancelled,
        refined_lesson(raw).cancelled <==> (raw.state_name matches Some(state) && contains(
            state,
            cancel_marker(),
        )),
{
}

/// Where the teacher text holds the substitute marker and a colon, the
/// teacher of the refined lesson is what follows the first colon, trimmed.
pub proof fn lemma_substitute_name_follows_colon(raw: UnrefinedLessonView, teacher: Seq<char>)
    requires
        raw.teacher == Some(teacher),
        contains(teacher, substitute_marker()),
        teacher.contains(':'),
    ensures
        teacher.index_of_first(':') is Some,
        refined_lesson(raw).teacher == trim(
            teacher.skip(teacher.index_of_first(':').unwrap() + 1),
        ),
        refined_lesson(raw).stand_in,
{
    teacher.index_of_first_ensures(':');
}

/// The teacher text of a lesson that the substitute `name` holds: the
/// marker, a colon, a blank and the name.
pub open spec fn substitute_text(name: Seq<char>) -> Seq<char> {
    substitute_marker() + seq![':', ' '] + name
}

/// The name that was put behind the substitute marker is read back,
/// trimmed: a name that neither starts nor ends with white space comes back
/// as it is, and so does every name that was read of a teacher text.
pub proof fn lemma_substitute_round_trip(name: Seq<char>)
    ensures
        teacher_name(substitute_text(name)) == trim(name),
        is_trimmed(name) ==> teacher_name(substitute_text(name)) == name,
        teacher_name(substitute_text(trim(name))) == trim(name),
{
    lemma_substitute_reads_back(name);
    lemma_substitute_reads_back(trim(name));
    lemma_trim_is_idempotent(name);
}

proof fn lemma_substitute_reads_back(name: Seq<char>)
    ensures
        teacher_name(substitute_text(name)) == trim(name),
{
    reveal_strlit("Helyettes");
    let marker = substitute_marker();
    let text = substitute_text(name);
    assert(text.subrange(0, marker.len() as int) =~= marker);
    assert(occurs_at(text, marker, 0));
    assert(text[9] == ':');
    text.index_of_first_ensures(':');
    let rest = text.skip(10);
    assert(rest.drop_first() =~= name);
}

/// Whatever the upstream lesson holds, the date of the refined lesson is a
/// calendar date and its two times are times of day.
pub proof fn lemma_refined_lesson_is_valid(raw: UnrefinedLessonView)
    ensures
        refined_lesson(raw).is_valid(),
{
    lemma_sentinels_are_valid();
}

} // verus!
