//! Announced tests.

use crate::calendar::is_calendar_date;
use crate::resources::defaults::{
    date_or_sentinel, date_or_sentinel_text, lemma_sentinels_are_valid, or_placeholder,
    text_or_placeholder,
};
use vstd::prelude::*;

verus! {

/// An announced test as the upstream service sends it.
#[derive(Debug)]
pub struct UnrefinedTask {
    pub id: i64,
    pub datum: Option<String>,
    pub bejelentes_datuma: Option<String>,
    pub tantargy: Option<String>,
    pub tanar: Option<String>,
    pub szamonkeres_megnevezese: Option<String>,
    pub szamonkeres_modja: Option<String>,
}

pub struct UnrefinedTaskView {
    pub id: int,
    pub datum: Option<Seq<char>>,
    pub bejelentes_datuma: Option<Seq<char>>,
    pub tantargy: Option<Seq<char>>,
    pub tanar: Option<Seq<char>>,
    pub szamonkeres_megnevezese: Option<Seq<char>>,
    pub szamonkeres_modja: Option<Seq<char>>,
}

impl View for UnrefinedTask {
    type V = UnrefinedTaskView;

    open spec fn view(&self) -> UnrefinedTaskView {
        UnrefinedTaskView {
            id: self.id as int,
            datum: self.datum.deep_view(),
            bejelentes_datuma: self.bejelentes_datuma.deep_view(),
            tantargy: self.tantargy.deep_view(),
            tanar: self.tanar.deep_view(),
            szamonkeres_megnevezese: self.szamonkeres_megnevezese.deep_view(),
            szamonkeres_modja: self.szamonkeres_modja.deep_view(),
        }
    }
}

impl DeepView for UnrefinedTask {
    type V = UnrefinedTaskView;

    open spec fn deep_view(&self) -> UnrefinedTaskView {
        self@
    }
}

/// An announced test in the stable schema. Its two dates are calendar dates.
#[derive(Debug)]
pub struct Task {
    id: i64,
    subject: String,
    topic: String,
    grade_type: String,
    teacher: String,
    date: String,
    creation_date: String,
}

pub struct TaskView {
    pub id: int,
    pub subject: Seq<char>,
    pub topic: Seq<char>,
    pub grade_type: Seq<char>,
    pub teacher: Seq<char>,
    pub date: Seq<char>,
    pub creation_date: Seq<char>,
}

impl TaskView {
    pub open spec fn is_valid(self) -> bool {
        &&& is_calendar_date(self.date)
        &&& is_calendar_date(self.creation_date)
    }
}

impl View for Task {
    type V = TaskView;

    closed spec fn view(&self) -> TaskView {
        TaskView {
            id: self.id as int,
            subject: self.subject@,
            topic: self.topic@,
            grade_type: self.grade_type@,
            teacher: self.teacher@,
            date: self.date@,
            creation_date: self.creation_date@,
        }
    }
}

impl DeepView for Task {
    type V = TaskView;

    open spec fn deep_view(&self) -> TaskView {
        self@
    }
}

/// The stable test that is made of an upstream test.
pub open spec fn refined_task(raw: UnrefinedTaskView) -> TaskView {
    TaskView {
        id: raw.id,
        subject: or_placeholder(raw.tantargy),
        topic: or_placeholder(raw.szamonkeres_megnevezese),
        grade_type: or_placeholder(raw.szamonkeres_modja),
        teacher: or_placeholder(raw.tanar),
        date: date_or_sentinel(raw.datum),
        creation_date: date_or_sentinel(raw.bejelentes_datuma),
    }
}

impl UnrefinedTask {
    /// Makes the stable test of an upstream test. Every input has a result.
    pub fn refine(self) -> (r: Task)
        ensures
            r@ == refined_task(self@),
    {
        Task {
            id: self.id,
            subject: text_or_placeholder(self.tantargy),
            topic: text_or_placeholder(self.szamonkeres_megnevezese),
            grade_type: text_or_placeholder(self.szamonkeres_modja),
            teacher: text_or_placeholder(self.tanar),
            date: date_or_sentinel_text(self.datum),
            creation_date: date_or_sentinel_text(self.bejelentes_datuma),
        }
    }
}

impl Task {
    #[verifier::type_invariant]
    pub open spec fn well_formed(self) -> bool {
        self@.is_valid()
    }

    pub fn id(&self) -> (r: i64)
        ensures
            r == self@.id,
    {
        self.id
    }

    pub fn subject(&self) -> (r: &String)
        ensures
            r@ == self@.subject,
    {
        &self.subject
    }

    pub fn topic(&self) -> (r: &String)
        ensures
            r@ == self@.topic,
    {
        &self.topic
    }

    pub fn grade_type(&self) -> (r: &String)
        ensures
            r@ == self@.grade_type,
    {
        &self.grade_type
    }

    pub fn teacher(&self) -> (r: &String)
        ensures
            r@ == self@.teacher,
    {
        &self.teacher
    }

    pub fn date(&self) -> (r: &String)
        ensures
            r@ == self@.date,
            is_calendar_date(r@),
    {
        proof {
            use_type_invariant(self);
        }
        &self.date
    }

    pub fn creation_date(&self) -> (r: &String)
        ensures
            r@ == self@.creation_date,
            is_calendar_date(r@),
    {
        proof {
            use_type_invariant(self);
        }
        &self.creation_date
    }
}

/// The stable tests that are made of upstream tests, one of each, in
/// their order.
pub open spec fn refined_tasks(raw: Seq<UnrefinedTaskView>) -> Seq<TaskView> {
    Seq::new(raw.len(), |i: int| refined_task(raw[i]))
}

/// Refines every one of `raw`, in order.
pub fn refine_tasks(raw: Vec<UnrefinedTask>) -> (r: Vec<Task>)
    ensures
        r.deep_view() == refined_tasks(raw.deep_view()),
{
    let ghost source = raw@;
    let mut refined: Vec<Task> = Vec::new();
    for item in it: raw.into_iter()
        invariant
            it.seq() == source,
            refined.len() == it.index(),
            forall|j: int| 0 <= j < refined.len() ==> (#[trigger] refined@[j])@ == refined_task(source[j]@),
    {
        refined.push(item.refine());
    }
    refined
}

/// Whatever the upstream test holds, the two dates of the refined test are
/// calendar dates.
pub proof fn lemma_refined_task_is_valid(raw: UnrefinedTaskView)
    ensures
        refined_task(raw).is_valid(),
{
    lemma_sentinels_are_valid();
}

} // verus!
