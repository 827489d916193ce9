//! Form teachers.

use crate::resources::defaults::{or_placeholder, text_or_placeholder};
use vstd::prelude::*;

verus! {

/// A form teacher as the upstream service sends it.
#[derive(Debug)]
pub struct UnrefinedFormTeacher {
    pub teacher_id: i64,
    pub name: Option<String>,
    pub email: Option<String>,
    pub phone_number: Option<String>,
}

pub struct UnrefinedFormTeacherView {
    pub teacher_id: int,
    pub name: Option<Seq<char>>,
    pub email: Option<Seq<char>>,
    pub phone_number: Option<Seq<char>>,
}

impl View for UnrefinedFormTeacher {
    type V = UnrefinedFormTeacherView;

    open spec fn view(&self) -> UnrefinedFormTeacherView {
        UnrefinedFormTeacherView {
            teacher_id: self.teacher_id as int,
            name: self.name.deep_view(),
            email: self.email.deep_view(),
            phone_number: self.phone_number.deep_view(),
        }
    }
}

impl DeepView for UnrefinedFormTeacher {
    type V = UnrefinedFormTeacherView;

    open spec fn deep_view(&self) -> UnrefinedFormTeacherView {
        self@
    }
}

/// A form teacher in the stable schema.
#[derive(Debug)]
pub struct FormTeacher {
    pub id: i64,
    pub name: String,
    pub email: String,
    pub phone_number: String,
}

pub struct FormTeacherView {
    pub id: int,
    pub name: Seq<char>,
    pub email: Seq<char>,
    pub phone_number: Seq<char>,
}

impl View for FormTeacher {
    type V = FormTeacherView;

    open spec fn view(&self) -> FormTeacherView {
        FormTeacherView {
            id: self.id as int,
            name: self.name@,
            email: self.email@,
            phone_number: self.phone_number@,
        }
    }
}

impl DeepView for FormTeacher {
    type V = FormTeacherView;

    open spec fn deep_view(&self) -> FormTeacherView {
        self@
    }
}

/// The stable form teacher that is made of an upstream one.
pub open spec fn refined_form_teacher(raw: UnrefinedFormTeacherView) -> FormTeacherView {
    FormTeacherView {
        id: raw.teacher_id,
        name: or_placeholder(raw.name),
        email: or_placeholder(raw.email),
        phone_number: or_placeholder(raw.phone_number),
    }
}

impl UnrefinedFormTeacher {
    /// Makes the stable form teacher of an upstream one. Every input has a
    /// result.
    pub fn refine(self) -> (r: FormTeacher)
        ensures
            r@ == refined_form_teacher(self@),
    {
        FormTeacher {
            id: self.teacher_id,
            name: text_or_placeholder(self.name),
            email: text_or_placeholder(self.email),
            phone_number: text_or_placeholder(self.phone_number),
        }
    }
}

} // verus!
