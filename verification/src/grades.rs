//! The grades of a student, grouped by subject and ordered by date.

use crate::resources::grade::{Grade, GradeView};
use crate::sequences::{
    lemma_concat_counts, lemma_filter_all, lemma_filter_none, lemma_filter_split,
};
use crate::text::chars_of;
use vstd::prelude::*;
use vstd::seq_lib::to_multiset_insert;

verus! {

/// The order of texts: character by character, by the number of the
/// character, a text before every text that it begins. For dates written
/// `YYYY-MM-DD` it is the order of the days.
pub open spec fn text_le(a: Seq<char>, b: Seq<char>) -> bool
    decreases a.len(),
{
    if a.len() == 0 {
        true
    } else if b.len() == 0 {
        false
    } else if a[0] != b[0] {
        a[0] < b[0]
    } else {
        text_le(a.drop_first(), b.drop_first())
    }
}

/// Every text is before or equal to itself.
pub proof fn lemma_text_le_reflexive(a: Seq<char>)
    ensures
        text_le(a, a),
    decreases a.len(),
{
    if a.len() > 0 {
        lemma_text_le_reflexive(a.drop_first());
    }
}

/// Of two texts one is before or equal to the other.
pub proof fn lemma_text_le_total(a: Seq<char>, b: Seq<char>)
    ensures
        text_le(a, b) || text_le(b, a),
    decreases a.len(),
{
    if a.len() > 0 && b.len() > 0 && a[0] == b[0] {
        lemma_text_le_total(a.drop_first(), b.drop_first());
    }
}

/// A text before or equal to a second that is before or equal to a third
/// is before or equal to the third.
pub proof fn lemma_text_le_transitive(a: Seq<char>, b: Seq<char>, c: Seq<char>)
    requires
        text_le(a, b),
        text_le(b, c),
    ensures
        text_le(a, c),
    decreases a.len(),
{
    if a.len() > 0 && b.len() > 0 && c.len() > 0 && a[0] == b[0] && b[0] == c[0] {
        lemma_text_le_transitive(a.drop_first(), b.drop_first(), c.drop_first());
    }
}

/// Two texts that are each before or equal to the other are equal.
pub proof fn lemma_text_le_antisymmetric(a: Seq<char>, b: Seq<char>)
    requires
        text_le(a, b),
        text_le(b, a),
    ensures
        a == b,
    decreases a.len(),
{
    if a.len() > 0 && b.len() > 0 {
        lemma_text_le_antisymmetric(a.drop_first(), b.drop_first());
        assert(a =~= seq![a[0]] + a.drop_first());
    }
}

/// Whether `a` is before or equal to `b` in the order of texts.
pub fn text_is_le(a: &str, b: &str) -> (r: bool)
    ensures
        r == text_le(a@, b@),
{
    let x = chars_of(a);
    let y = chars_of(b);
    let mut i: usize = 0;
    assert(x@.skip(0) =~= x@ && y@.skip(0) =~= y@);
    while i < x.len()
        invariant
            i <= x.len(),
            i <= y.len(),
            x@ == a@,
            y@ == b@,
            text_le(a@, b@) == text_le(x@.skip(i as int), y@.skip(i as int)),
        decreases x.len() - i,
    {
        if i == y.len() {
            return false;
        }
        if x[i] != y[i] {
            return x[i] < y[i];
        }
        assert(x@.skip(i as int).drop_first() =~= x@.skip(i + 1));
        assert(y@.skip(i as int).drop_first() =~= y@.skip(i + 1));
        i = i + 1;
    }
    true
}

/// The test that a grade has the date `date`.
pub open spec fn has_date(date: Seq<char>) -> spec_fn(GradeView) -> bool {
    |grade: GradeView| grade.date == date
}

/// The grades of `grades` with the date `date`, in their order.
pub open spec fn with_date(grades: Seq<GradeView>, date: Seq<char>) -> Seq<GradeView> {
    grades.filter(has_date(date))
}

/// The dates of the grades ascend in the order of texts.
pub open spec fn ascends_by_date(grades: Seq<GradeView>) -> bool {
    forall|i: int, j: int|
        0 <= i < j < grades.len() ==> text_le(
            (#[trigger] grades[i]).date,
            (#[trigger] grades[j]).date,
        )
}

/// `sorted` is `grades` ordered by date: it holds the same grades as often,
/// their dates ascend, and the grades of one date stand in the order that
/// they have in `grades`.
pub open spec fn is_ordered_by_date(sorted: Seq<GradeView>, grades: Seq<GradeView>) -> bool {
    &&& sorted.len() == grades.len()
    &&& sorted.to_multiset() == grades.to_multiset()
    &&& ascends_by_date(sorted)
    &&& forall|date: Seq<char>| #[trigger] with_date(sorted, date) == with_date(grades, date)
}

/// Putting `grade` into an ordered sequence behind the last grade that is
/// not after it keeps the sequence ordered, with `grade` as the last of its
/// date.
proof fn lemma_insert_keeps_order(
    sorted: Seq<GradeView>,
    done: Seq<GradeView>,
    grade: GradeView,
    at: int,
)
    requires
        is_ordered_by_date(sorted, done),
        0 <= at <= sorted.len(),
        forall|j: int| 0 <= j < at ==> text_le((#[trigger] sorted[j]).date, grade.date),
        forall|j: int| at <= j < sorted.len() ==> !text_le((#[trigger] sorted[j]).date, grade.date),
    ensures
        is_ordered_by_date(sorted.insert(at, grade), done.push(grade)),
{
    let next = sorted.insert(at, grade);
    to_multiset_insert(sorted, at, grade);
    vstd::seq_lib::to_multiset_build(done, grade);
    assert forall|i: int, j: int| 0 <= i < j < next.len() implies text_le(
        (#[trigger] next[i]).date,
        (#[trigger] next[j]).date,
    ) by {
        if i == at {
            lemma_text_le_total(sorted[j - 1].date, grade.date);
        }
    }
    assert forall|date: Seq<char>| #[trigger]
        with_date(next, date) == with_date(done.push(grade), date) by {
        let test = has_date(date);
        let head = sorted.take(at);
        let tail = sorted.skip(at);
        assert(sorted =~= head + tail);
        head.lemma_filter_push(grade, test);
        done.lemma_filter_push(grade, test);
        assert(with_date(sorted, date) == with_date(done, date));
        if grade.date == date {
            assert forall|j: int| 0 <= j < tail.len() implies !test(#[trigger] tail[j]) by {
                lemma_text_le_reflexive(date);
            }
            lemma_filter_none(tail, test);
        }
    }
}

/// Two sequences of as many grades, both ascending by date, that hold the
/// same grades of every date in the same order, are one sequence.
pub proof fn lemma_ascending_is_unique(a: Seq<GradeView>, b: Seq<GradeView>)
    requires
        a.len() == b.len(),
        ascends_by_date(a),
        ascends_by_date(b),
        forall|date: Seq<char>| #[trigger] with_date(a, date) == with_date(b, date),
    ensures
        a == b,
    decreases a.len(),
{
    reveal(Seq::filter);
    if a.len() > 0 {
        let x = a.last();
        let y = b.last();
        lemma_last_date_is_latest(a, b);
        lemma_last_date_is_latest(b, a);
        lemma_text_le_antisymmetric(x.date, y.date);
        assert(with_date(a, x.date).last() == x);
        let short_a = a.drop_last();
        let short_b = b.drop_last();
        assert forall|date: Seq<char>| #[trigger]
            with_date(short_a, date) == with_date(short_b, date) by {
            if date == x.date {
                assert(with_date(short_a, date) =~= with_date(a, date).drop_last());
            }
        }
        lemma_ascending_is_unique(short_a, short_b);
        assert(a =~= short_a.push(x));
    }
}

/// Where `b` ascends by date and holds a grade of the date of the last
/// grade of `a`, that date is not after the date of the last grade of `b`.
proof fn lemma_last_date_is_latest(a: Seq<GradeView>, b: Seq<GradeView>)
    requires
        a.len() > 0,
        b.len() > 0,
        ascends_by_date(b),
        with_date(a, a.last().date) == with_date(b, a.last().date),
    ensures
        text_le(a.last().date, b.last().date),
{
    let x = a.last();
    let test = has_date(x.date);
    b.lemma_filter_contains_rev(test, x);
    let at = choose|at: int| 0 <= at < b.len() && b[at] == x;
    if at == b.len() - 1 {
        lemma_text_le_reflexive(x.date);
    }
}

/// The order by date of a sequence of grades is one: two sequences that
/// both are the grades ordered by date are equal.
pub proof fn lemma_order_by_date_is_unique(
    first: Seq<GradeView>,
    second: Seq<GradeView>,
    grades: Seq<GradeView>,
)
    requires
        is_ordered_by_date(first, grades),
        is_ordered_by_date(second, grades),
    ensures
        first == second,
{
    lemma_ascending_is_unique(first, second);
}

/// Orders the grades by date, ascending in the order of texts. Grades of
/// one date keep their order.
pub fn sort_by_date(grades: Vec<Grade>) -> (r: Vec<Grade>)
    ensures
        is_ordered_by_date(r.deep_view(), grades.deep_view()),
{
    let ghost source = grades@;
    let ghost views = grades.deep_view();
    let mut sorted: Vec<Grade> = Vec::new();
    proof {
        assert(views.take(0) =~= Seq::<GradeView>::empty());
        assert(sorted.deep_view() =~= Seq::<GradeView>::empty());
    }
    for grade in it: grades.into_iter()
        invariant
            it.seq() == source,
            views == Seq::new(source.len(), |i: int| source[i]@),
            is_ordered_by_date(sorted.deep_view(), views.take(it.index() as int)),
    {
        let ghost before = sorted.deep_view();
        let mut at: usize = sorted.len();
        while at > 0 && !text_is_le(sorted[at - 1].date().as_str(), grade.date().as_str())
            invariant
                at <= sorted.len(),
                before == sorted.deep_view(),
                forall|j: int|
                    at <= j < before.len() ==> !text_le((#[trigger] before[j]).date, grade@.date),
            decreases at,
        {
            at = at - 1;
        }
        proof {
            assert forall|j: int| 0 <= j < at implies text_le(
                (#[trigger] before[j]).date,
                grade@.date,
            ) by {
                if j < at - 1 {
                    lemma_text_le_transitive(before[j].date, before[at - 1].date, grade@.date);
                }
            }
            lemma_insert_keeps_order(
                before,
                views.take(it.index() as int),
                grade@,
                at as int,
            );
            assert(views.take(it.index() as int).push(grade@) =~= views.take(it.index() + 1));
        }
        sorted.insert(at, grade);
        assert(sorted.deep_view() =~= before.insert(at as int, grade@));
    }
    assert(views.take(source.len() as int) =~= views);
    sorted
}

/// The grades of one subject.
#[derive(Debug)]
pub struct SubjectGrades {
    pub subject: String,
    pub grades: Vec<Grade>,
}

pub struct SubjectGradesView {
    pub subject: Seq<char>,
    pub grades: Seq<GradeView>,
}

impl View for SubjectGrades {
    type V = SubjectGradesView;

    open spec fn view(&self) -> SubjectGradesView {
        SubjectGradesView { subject: self.subject@, grades: self.grades.deep_view() }
    }
}

impl DeepView for SubjectGrades {
    type V = SubjectGradesView;

    open spec fn deep_view(&self) -> SubjectGradesView {
        self@
    }
}

/// The test that a grade is of the subject `subject`.
pub open spec fn has_subject(subject: Seq<char>) -> spec_fn(GradeView) -> bool {
    |grade: GradeView| grade.subject == subject
}

/// The grades of `grades` of the subject `subject`, in their order.
pub open spec fn of_subject(grades: Seq<GradeView>, subject: Seq<char>) -> Seq<GradeView> {
    grades.filter(has_subject(subject))
}

/// The subjects of `grades`, each once, in the order in which they first
/// occur.
pub open spec fn subjects_of(grades: Seq<GradeView>) -> Seq<Seq<char>>
    decreases grades.len(),
{
    if grades.len() == 0 {
        Seq::empty()
    } else {
        let before = subjects_of(grades.drop_last());
        if before.contains(grades.last().subject) {
            before
        } else {
            before.push(grades.last().subject)
        }
    }
}

/// `groups` are the grades `grades` by subject: one group for each subject,
/// in the order in which the subjects first occur, and in each group the
/// grades of its subject ordered by date.
pub open spec fn is_grouped_by_subject(
    groups: Seq<SubjectGradesView>,
    grades: Seq<GradeView>,
) -> bool {
    &&& groups.len() == subjects_of(grades).len()
    &&& forall|k: int|
        0 <= k < groups.len() ==> {
            &&& (#[trigger] groups[k]).subject == subjects_of(grades)[k]
            &&& is_ordered_by_date(groups[k].grades, of_subject(grades, groups[k].subject))
        }
}

/// No subject stands twice among the subjects of `grades`, and the subject
/// of every grade stands among them.
pub proof fn lemma_subjects_of(grades: Seq<GradeView>)
    ensures
        forall|i: int, j: int|
            0 <= i < j < subjects_of(grades).len() ==> subjects_of(grades)[i] != subjects_of(
                grades,
            )[j],
        forall|i: int|
            0 <= i < grades.len() ==> subjects_of(grades).contains((#[trigger] grades[i]).subject),
        forall|k: int|
            0 <= k < subjects_of(grades).len() ==> of_subject(
                grades,
                #[trigger] subjects_of(grades)[k],
            ).len() > 0,
    decreases grades.len(),
{
    reveal(Seq::filter);
    if grades.len() > 0 {
        let rest = grades.drop_last();
        let last = grades.last();
        let before = subjects_of(rest);
        let all = subjects_of(grades);
        lemma_subjects_of(rest);
        assert forall|i: int| 0 <= i < grades.len() implies all.contains(
            (#[trigger] grades[i]).subject,
        ) by {
            if i < rest.len() {
                let at = choose|at: int| 0 <= at < before.len() && before[at] == rest[i].subject;
                assert(all[at] == rest[i].subject);
            } else if !before.contains(last.subject) {
                assert(all[before.len() as int] == last.subject);
            }
        }
    }
}

/// The test that a grade is of one of the first `n` subjects of `subjects`.
pub open spec fn has_one_of(subjects: Seq<Seq<char>>, n: int) -> spec_fn(GradeView) -> bool {
    |grade: GradeView| subjects.take(n).contains(grade.subject)
}

/// The grades of the groups, one group after the other.
pub open spec fn all_grades(groups: Seq<SubjectGradesView>) -> Seq<GradeView> {
    groups.map_values(|group: SubjectGradesView| group.grades).flatten()
}

proof fn lemma_first_groups_count(
    groups: Seq<SubjectGradesView>,
    grades: Seq<GradeView>,
    n: int,
)
    requires
        is_grouped_by_subject(groups, grades),
        0 <= n <= groups.len(),
    ensures
        groups.map_values(|group: SubjectGradesView| group.grades).take(n).flatten().to_multiset()
            == grades.filter(has_one_of(subjects_of(grades), n)).to_multiset(),
    decreases n,
{
    let subjects = subjects_of(grades);
    let lists = groups.map_values(|group: SubjectGradesView| group.grades);
    if n == 0 {
        lemma_filter_none(grades, has_one_of(subjects, 0));
    } else {
        lemma_first_groups_count(groups, grades, n - 1);
        lemma_subjects_of(grades);
        let head = lists.take(n - 1);
        let subject = subjects[n - 1];
        assert(lists.take(n) =~= head.push(lists[n - 1]));
        head.lemma_flatten_push(lists[n - 1]);
        lemma_concat_counts(head.flatten(), lists[n - 1]);
        assert forall|grade: GradeView| #[trigger]
            has_one_of(subjects, n)(grade) == (has_one_of(subjects, n - 1)(grade)
                || has_subject(subject)(grade)) by {
            if grade.subject == subject {
                assert(subjects.take(n)[n - 1] == grade.subject);
            }
        }
        lemma_filter_split(
            grades,
            has_one_of(subjects, n - 1),
            has_subject(subject),
            has_one_of(subjects, n),
        );
    }
}

/// Grouping drops no grade and doubles none: the groups, one after the
/// other, hold the grades that were grouped, each as often, and as many in
/// all.
pub proof fn lemma_grouping_keeps_every_grade(
    groups: Seq<SubjectGradesView>,
    grades: Seq<GradeView>,
)
    requires
        is_grouped_by_subject(groups, grades),
    ensures
        all_grades(groups).to_multiset() == grades.to_multiset(),
        all_grades(groups).len() == grades.len(),
{
    let subjects = subjects_of(grades);
    let lists = groups.map_values(|group: SubjectGradesView| group.grades);
    lemma_first_groups_count(groups, grades, groups.len() as int);
    assert(lists.take(groups.len() as int) =~= lists);
    lemma_subjects_of(grades);
    assert(subjects.take(subjects.len() as int) =~= subjects);
    lemma_filter_all(grades, has_one_of(subjects, groups.len() as int));
    all_grades(groups).to_multiset_ensures();
    grades.to_multiset_ensures();
}

/// The subjects of the groups, in their order.
spec fn subjects_in(groups: Seq<SubjectGrades>) -> Seq<Seq<char>> {
    Seq::new(groups.len(), |k: int| groups[k].subject@)
}

/// The groups hold the grades `done` by subject, in the order of `done`.
spec fn is_gathered(groups: Seq<SubjectGrades>, done: Seq<GradeView>) -> bool {
    &&& subjects_in(groups) == subjects_of(done)
    &&& forall|k: int|
        0 <= k < groups.len() ==> (#[trigger] groups[k]).grades.deep_view() == of_subject(
            done,
            groups[k].subject@,
        )
}

/// The position of the group of the subject `subject`, if there is one.
fn find_subject(groups: &Vec<SubjectGrades>, subject: &String) -> (r: Option<usize>)
    ensures
        match r {
            Some(k) => k < groups.len() && groups[k as int].subject@ == subject@,
            None => !subjects_in(groups@).contains(subject@),
        },
{
    let mut k: usize = 0;
    while k < groups.len()
        invariant
            k <= groups.len(),
            forall|j: int| 0 <= j < k ==> (#[trigger] groups[j]).subject@ != subject@,
        decreases groups.len() - k,
    {
        if groups[k].subject == *subject {
            return Some(k);
        }
        k = k + 1;
    }
    None
}

/// Gathers the grades by subject, the subjects in the order in which they
/// first occur, the grades of a subject in their order.
fn gather_by_subject(grades: Vec<Grade>) -> (r: Vec<SubjectGrades>)
    ensures
        is_gathered(r@, grades.deep_view()),
{
    let ghost source = grades@;
    let ghost views = grades.deep_view();
    let mut groups: Vec<SubjectGrades> = Vec::new();
    proof {
        assert(subjects_in(groups@) =~= subjects_of(views.take(0)));
    }
    for grade in it: grades.into_iter()
        invariant
            it.seq() == source,
            views == Seq::new(source.len(), |i: int| source[i]@),
            is_gathered(groups@, views.take(it.index() as int)),
    {
        let ghost done = views.take(it.index() as int);
        let ghost next = views.take(it.index() + 1);
        let ghost before = groups@;
        proof {
            assert(done.push(grade@) =~= next);
            assert(next.drop_last() =~= done);
            lemma_subjects_of(done);
        }
        match find_subject(&groups, grade.subject()) {
            Some(k) => {
                proof {
                    assert(subjects_in(before)[k as int] == grade@.subject);
                }
                groups[k].grades.push(grade);
                proof {
                    assert(subjects_in(groups@) =~= subjects_of(next));
                    assert forall|j: int| 0 <= j < groups.len() implies (#[trigger] groups@[j]).grades.deep_view()
                        == of_subject(next, groups@[j].subject@) by {
                        done.lemma_filter_push(grade@, has_subject(groups@[j].subject@));
                        assert(subjects_in(before)[j] == before[j].subject@);
                    }
                }
            },
            None => {
                let subject = grade.subject().clone();
                let mut only: Vec<Grade> = Vec::new();
                only.push(grade);
                groups.push(SubjectGrades { subject, grades: only });
                proof {
                    assert(subjects_in(groups@) =~= subjects_of(next));
                    assert forall|j: int| 0 <= j < groups.len() implies (#[trigger] groups@[j]).grades.deep_view()
                        == of_subject(next, groups@[j].subject@) by {
                        done.lemma_filter_push(grade@, has_subject(groups@[j].subject@));
                        if j < before.len() {
                            assert(subjects_in(before)[j] == before[j].subject@);
                        } else {
                            lemma_filter_none(done, has_subject(grade@.subject));
                        }
                    }
                }
            },
        }
    }
    assert(views.take(source.len() as int) =~= views);
    groups
}

/// Groups the grades by subject, the subjects in the order in which they
/// first occur, and orders the grades of each subject by date.
pub fn group_grades(grades: Vec<Grade>) -> (r: Vec<SubjectGrades>)
    ensures
        is_grouped_by_subject(r.deep_view(), grades.deep_view()),
        all_grades(r.deep_view()).to_multiset() == grades.deep_view().to_multiset(),
{
    let ghost views = grades.deep_view();
    let gathered = gather_by_subject(grades);
    let ghost source = gathered@;
    let mut groups: Vec<SubjectGrades> = Vec::new();
    for group in it: gathered.into_iter()
        invariant
            it.seq() == source,
            is_gathered(source, views),
            groups.len() == it.index(),
            forall|k: int|
                0 <= k < groups.len() ==> {
                    &&& (#[trigger] groups@[k]).subject@ == source[k].subject@
                    &&& is_ordered_by_date(
                        groups@[k].grades.deep_view(),
                        of_subject(views, source[k].subject@),
                    )
                },
    {
        let subject = group.subject;
        let sorted = sort_by_date(group.grades);
        groups.push(SubjectGrades { subject, grades: sorted });
    }
    proof {
        let result = groups.deep_view();
        lemma_grouping_keeps_every_grade(result, views);
    }
    groups
}

} // verus!
