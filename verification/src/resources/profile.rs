//! The profile of a student: grades, averages, notes and form teacher.

use crate::resources::average::{
    refine_averages, refined_averages, Average, AverageView, UnrefinedAverage,
    UnrefinedAverageView,
};
use crate::resources::defaults::{or_placeholder, text_or_placeholder};
use crate::resources::form_teacher::{
    refined_form_teacher, FormTeacher, FormTeacherView, UnrefinedFormTeacher,
    UnrefinedFormTeacherView,
};
use crate::resources::grade::{
    refine_grades, refined_grades, Grade, GradeView, UnrefinedGrade, UnrefinedGradeView,
};
use crate::resources::note::{
    refine_notes, refined_notes, Note, NoteView, UnrefinedNote, UnrefinedNoteView,
};
use vstd::prelude::*;

verus! {

/// A profile as the upstream service sends it.
#[derive(Debug)]
pub struct UnrefinedProfile<N> {
    pub name: Option<String>,
    pub institute_name: Option<String>,
    pub student_id: u64,
    pub evaluations: Option<Vec<UnrefinedGrade>>,
    pub subject_averages: Option<Vec<UnrefinedAverage<N>>>,
    pub notes: Option<Vec<UnrefinedNote>>,
    pub form_teacher: Option<UnrefinedFormTeacher>,
}

pub struct UnrefinedProfileView<N> {
    pub name: Option<Seq<char>>,
    pub institute_name: Option<Seq<char>>,
    pub student_id: nat,
    pub evaluations: Option<Seq<UnrefinedGradeView>>,
    pub subject_averages: Option<Seq<UnrefinedAverageView<N>>>,
    pub notes: Option<Seq<UnrefinedNoteView>>,
    pub form_teacher: Option<UnrefinedFormTeacherView>,
}

impl<N> View for UnrefinedProfile<N> {
    type V = UnrefinedProfileView<N>;

    open spec fn view(&self) -> UnrefinedProfileView<N> {
        UnrefinedProfileView {
            name: self.name.deep_view(),
            institute_name: self.institute_name.deep_view(),
            student_id: self.student_id as nat,
            evaluations: self.evaluations.deep_view(),
            subject_averages: self.subject_averages.deep_view(),
            notes: self.notes.deep_view(),
            form_teacher: self.form_teacher.deep_view(),
        }
    }
}

impl<N> DeepView for UnrefinedProfile<N> {
    type V = UnrefinedProfileView<N>;

    open spec fn deep_view(&self) -> UnrefinedProfileView<N> {
        self@
    }
}

/// A profile in the stable schema.
#[derive(Debug)]
pub struct Profile<N> {
    pub id: u64,
    pub name: String,
    pub school_name: String,
    pub grades: Vec<Grade>,
    pub averages: Vec<Average<N>>,
    pub notes: Vec<Note>,
    pub form_teacher: Option<FormTeacher>,
}

pub struct ProfileView<N> {
    pub id: nat,
    pub name: Seq<char>,
    pub school_name: Seq<char>,
    pub grades: Seq<GradeView>,
    pub averages: Seq<AverageView<N>>,
    pub notes: Seq<NoteView>,
    pub form_teacher: Option<FormTeacherView>,
}

impl<N> View for Profile<N> {
    type V = ProfileView<N>;

    open spec fn view(&self) -> ProfileView<N> {
        ProfileView {
            id: self.id as nat,
            name: self.name@,
            school_name: self.school_name@,
            grades: self.grades.deep_view(),
            averages: self.averages.deep_view(),
            notes: self.notes.deep_view(),
            form_teacher: self.form_teacher.deep_view(),
        }
    }
}

impl<N> DeepView for Profile<N> {
    type V = ProfileView<N>;

    open spec fn deep_view(&self) -> ProfileView<N> {
        self@
    }
}

/// The stable profile that is made of an upstream profile: every grade,
/// average and note refined, in their order, none where the list is absent,
/// and the form teacher refined where there is one.
pub open spec fn refined_profile<N>(raw: UnrefinedProfileView<N>) -> ProfileView<N> {
    ProfileView {
        id: raw.student_id,
        name: or_placeholder(raw.name),
        school_name: or_placeholder(raw.institute_name),
        grades: match raw.evaluations {
            Some(evaluations) => refined_grades(evaluations),
            None => Seq::empty(),
        },
        averages: match raw.subject_averages {
            Some(averages) => refined_averages(averages),
            None => Seq::empty(),
        },
        notes: match raw.notes {
            Some(notes) => refined_notes(notes),
            None => Seq::empty(),
        },
        form_teacher: match raw.form_teacher {
            Some(form) => Some(refined_form_teacher(form)),
            None => None,
        },
    }
}

impl<N> UnrefinedProfile<N> {
    /// Makes the stable profile of an upstream profile. Every input has a
    /// result.
    pub fn refine(self) -> (r: Profile<N>)
        ensures
            r@ == refined_profile(self@),
    {
        let grades: Vec<Grade> = match self.evaluations {
            Some(evaluations) => refine_grades(evaluations),
            None => Vec::new(),
        };
        let averages: Vec<Average<N>> = match self.subject_averages {
            Some(averages) => refine_averages(averages),
            None => Vec::new(),
        };
        let notes: Vec<Note> = match self.notes {
            Some(notes) => refine_notes(notes),
            None => Vec::new(),
        };
        let form_teacher: Option<FormTeacher> = match self.form_teacher {
            Some(form) => Some(form.refine()),
            None => None,
        };
        let r = Profile {
            id: self.student_id,
            name: text_or_placeholder(self.name),
            school_name: text_or_placeholder(self.institute_name),
            grades,
            averages,
            notes,
            form_teacher,
        };
        proof {
            assert(r@.grades =~= refined_profile(self@).grades);
            assert(r@.averages =~= refined_profile(self@).averages);
            assert(r@.notes =~= refined_profile(self@).notes);
        }
        r
    }
}

} // verus!
