//! Grades.

use crate::calendar::is_calendar_date;
use crate::resources::defaults::{
    date_or_sentinel, date_or_sentinel_text, lemma_sentinels_are_valid, or_placeholder,
    text_or_placeholder,
};
use crate::text::{
    chars_of, decimal_string, decimal_text, differs_from, lemma_decimal_text_denotes,
    lemma_without_absent_char, parse_unsigned, parse_unsigned_within, remove_char, without_char,
};
use vstd::prelude::*;

verus! {

/// A grade as the upstream service sends it. A `number_value` of 0 says that
/// the grade is the text in `value`.
#[derive(Debug)]
pub struct UnrefinedGrade {
    pub subject: Option<String>,
    pub theme: Option<String>,
    pub weight: Option<String>,
    pub grade_type: Option<String>,
    pub number_value: u8,
    pub value: Option<String>,
    pub teacher: Option<String>,
    pub date: Option<String>,
    pub creating_time: Option<String>,
}

pub struct UnrefinedGradeView {
    pub subject: Option<Seq<char>>,
    pub theme: Option<Seq<char>>,
    pub weight: Option<Seq<char>>,
    pub grade_type: Option<Seq<char>>,
    pub number_value: nat,
    pub value: Option<Seq<char>>,
    pub teacher: Option<Seq<char>>,
    pub date: Option<Seq<char>>,
    pub creating_time: Option<Seq<char>>,
}

impl View for UnrefinedGrade {
    type V = UnrefinedGradeView;

    open spec fn view(&self) -> UnrefinedGradeView {
        UnrefinedGradeView {
            subject: self.subject.deep_view(),
            theme: self.theme.deep_view(),
            weight: self.weight.deep_view(),
            grade_type: self.grade_type.deep_view(),
            number_value: self.number_value as nat,
            value: self.value.deep_view(),
            teacher: self.teacher.deep_view(),
            date: self.date.deep_view(),
            creating_time: self.creating_time.deep_view(),
        }
    }
}

impl DeepView for UnrefinedGrade {
    type V = UnrefinedGradeView;

    open spec fn deep_view(&self) -> UnrefinedGradeView {
        self@
    }
}

/// A grade in the stable schema. Its two dates are calendar dates and its
/// weight is at most 100.
#[derive(Debug)]
pub struct Grade {
    subject: String,
    grade_type: String,
    grade: String,
    date: String,
    creation_date: String,
    weight: u8,
    topic: String,
}

pub struct GradeView {
    pub subject: Seq<char>,
    pub grade_type: Seq<char>,
    pub grade: Seq<char>,
    pub date: Seq<char>,
    pub creation_date: Seq<char>,
    pub weight: nat,
    pub topic: Seq<char>,
}

impl GradeView {
    pub open spec fn is_valid(self) -> bool {
        &&& is_calendar_date(self.date)
        &&& is_calendar_date(self.creation_date)
        &&& self.weight <= 100
    }
}

impl View for Grade {
    type V = GradeView;

    closed spec fn view(&self) -> GradeView {
        GradeView {
            subject: self.subject@,
            grade_type: self.grade_type@,
            grade: self.grade@,
            date: self.date@,
            creation_date: self.creation_date@,
            weight: self.weight as nat,
            topic: self.topic@,
        }
    }
}

impl DeepView for Grade {
    type V = GradeView;

    open spec fn deep_view(&self) -> GradeView {
        self@
    }
}

/// The weight that an upstream weight text gives: the number that is left
/// when every `%` is taken out, where that is an unsigned decimal of at most
/// 100, and 0 otherwise.
pub open spec fn weight_of(raw: Seq<char>) -> nat {
    match parse_unsigned(without_char(raw, '%')) {
        Some(n) => if n <= 100 {
            n
        } else {
            0
        },
        None => 0,
    }
}

/// The weight written as a percentage: its decimal digits and `%`.
pub open spec fn percent_text(weight: nat) -> Seq<char> {
    decimal_text(weight).push('%')
}

/// The grade of an upstream record: the number where there is one, the text
/// where the number is 0.
pub open spec fn grade_text(number_value: nat, value: Option<Seq<char>>) -> Seq<char> {
    if number_value == 0 {
        or_placeholder(value)
    } else {
        decimal_text(number_value)
    }
}

/// The stable grade that is made of an upstream grade.
pub open spec fn refined_grade(raw: UnrefinedGradeView) -> GradeView {
    GradeView {
        subject: or_placeholder(raw.subject),
        grade_type: or_placeholder(raw.grade_type),
        grade: grade_text(raw.number_value, raw.value),
        date: date_or_sentinel(raw.date),
        creation_date: date_or_sentinel(raw.creating_time),
        weight: match raw.weight {
            Some(text) => weight_of(text),
            None => 0,
        },
        topic: or_placeholder(raw.theme),
    }
}

/// A weight of at most 100, written as a percentage, is read as itself.
pub proof fn lemma_weight_of_percent_text(weight: nat)
    requires
        weight <= 100,
    ensures
        weight_of(percent_text(weight)) == weight,
{
    let digits = decimal_text(weight);
    lemma_decimal_text_denotes(weight);
    lemma_without_absent_char(digits, '%');
    digits.lemma_filter_push('%', differs_from('%'));
}

/// Reading a weight is idempotent: the weight that was read of any text,
/// written as a percentage and read again, is the same weight.
pub proof fn lemma_weight_is_idempotent(raw: Seq<char>)
    ensures
        weight_of(raw) <= 100,
        weight_of(percent_text(weight_of(raw))) == weight_of(raw),
{
    lemma_weight_of_percent_text(weight_of(raw));
}

/// The weight that an upstream weight text gives.
pub fn parse_weight(raw: &str) -> (r: u8)
    ensures
        r == weight_of(raw@),
        r <= 100,
{
    let chars = chars_of(raw);
    let digits = remove_char(&chars, '%');
    match parse_unsigned_within(&digits, 100) {
        Some(n) => n as u8,
        None => 0,
    }
}

impl UnrefinedGrade {
    /// Makes the stable grade of an upstream grade. Every input has a
    /// result.
    pub fn refine(self) -> (r: Grade)
        ensures
            r@ == refined_grade(self@),
    {
        let grade = if self.number_value == 0 {
            text_or_placeholder(self.value)
        } else {
            decimal_string(self.number_value as u64)
        };
        let weight: u8 = match &self.weight {
            Some(text) => parse_weight(text.as_str()),
            None => 0,
        };
        Grade {
            subject: text_or_placeholder(self.subject),
            grade_type: text_or_placeholder(self.grade_type),
            grade,
            date: date_or_sentinel_text(self.date),
            creation_date: date_or_sentinel_text(self.creating_time),
            weight,
            topic: text_or_placeholder(self.theme),
        }
    }
}

impl Grade {
    #[verifier::type_invariant]
    pub open spec fn well_formed(self) -> bool {
        self@.is_valid()
    }

    pub fn subject(&self) -> (r: &String)
        ensures
            r@ == self@.subject,
    {
        &self.subject
    }

    pub fn grade_type(&self) -> (r: &String)
        ensures
            r@ == self@.grade_type,
    {
        &self.grade_type
    }

    pub fn grade(&self) -> (r: &String)
        ensures
            r@ == self@.grade,
    {
        &self.grade
    }

    pub fn date(&self) -> (r: &String)
        ensures
            r@ == self@.date,
            is_calendar_date(r@),
    {
        proof {
            use_type_invariant(self);
        }
        &self.date
    }

    pub fn creation_date(&self) -> (r: &String)
        ensures
            r@ == self@.creation_date,
            is_calendar_date(r@),
    {
        proof {
            use_type_invariant(self);
        }
        &self.creation_date
    }

    pub fn weight(&self) -> (r: u8)
        ensures
            r == self@.weight,
            r <= 100,
    {
        proof {
            use_type_invariant(self);
        }
        self.weight
    }

    pub fn topic(&self) -> (r: &String)
        ensures
            r@ == self@.topic,
    {
        &self.topic
    }
}

/// The stable grades that are made of upstream grades, one of each, in
/// their order.
pub open spec fn refined_grades(raw: Seq<UnrefinedGradeView>) -> Seq<GradeView> {
    Seq::new(raw.len(), |i: int| refined_grade(raw[i]))
}

/// Refines every one of `raw`, in order.
pub fn refine_grades(raw: Vec<UnrefinedGrade>) -> (r: Vec<Grade>)
    ensures
        r.deep_view() == refined_grades(raw.deep_view()),
{
    let ghost source = raw@;
    let mut refined: Vec<Grade> = Vec::new();
    for item in it: raw.into_iter()
        invariant
            it.seq() == source,
            refined.len() == it.index(),
            forall|j: int| 0 <= j < refined.len() ==> (#[trigger] refined@[j])@ == refined_grade(source[j]@),
    {
        refined.push(item.refine());
    }
    refined
}

/// The grade is the number where there is one, and the text where the
/// number is 0: the text itself where it is there, the placeholder where it
/// is absent.
pub proof fn lemma_grade_is_number_or_text(raw: UnrefinedGradeView)
    ensures
        raw.number_value > 0 ==> refined_grade(raw).grade == decimal_text(raw.number_value),
        raw.number_value == 0 ==> refined_grade(raw).grade == or_placeholder(raw.value),
        raw.number_value == 0 ==> (raw.value matches Some(text) ==> refined_grade(raw).grade
            == text),
{
}

/// Whatever the upstream grade holds, the two dates of the refined grade
/// are calendar dates and its weight is at most 100.
pub proof fn lemma_refined_grade_is_valid(raw: UnrefinedGradeView)
    ensures
        refined_grade(raw).is_valid(),
{
    lemma_sentinels_are_valid();
}

} // verus!
