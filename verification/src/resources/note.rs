//! Notes of teachers.

use crate::calendar::is_calendar_date;
use crate::resources::defaults::{
    date_or_sentinel, date_or_sentinel_text, lemma_sentinels_are_valid, or_placeholder,
    placeholder, sentinel_date, text_or_placeholder,
};
use vstd::prelude::*;

verus! {

/// A note as the upstream service sends it.
#[derive(Debug)]
pub struct UnrefinedNote {
    pub note_id: i64,
    pub note_type: Option<String>,
    pub title: Option<String>,
    pub content: Option<String>,
    pub teacher: Option<String>,
    pub creating_time: Option<String>,
}

pub struct UnrefinedNoteView {
    pub note_id: int,
    pub note_type: Option<Seq<char>>,
    pub title: Option<Seq<char>>,
    pub content: Option<Seq<char>>,
    pub teacher: Option<Seq<char>>,
    pub creating_time: Option<Seq<char>>,
}

impl View for UnrefinedNote {
    type V = UnrefinedNoteView;

    open spec fn view(&self) -> UnrefinedNoteView {
        UnrefinedNoteView {
            note_id: self.note_id as int,
            note_type: self.note_type.deep_view(),
            title: self.title.deep_view(),
            content: self.content.deep_view(),
            teacher: self.teacher.deep_view(),
            creating_time: self.creating_time.deep_view(),
        }
    }
}

impl DeepView for UnrefinedNote {
    type V = UnrefinedNoteView;

    open spec fn deep_view(&self) -> UnrefinedNoteView {
        self@
    }
}

/// A note in the stable schema. Its creation date is a calendar date.
#[derive(Debug)]
pub struct Note {
    id: i64,
    note_type: String,
    title: String,
    content: String,
    teacher: String,
    creation_date: String,
}

pub struct NoteView {
    pub id: int,
    pub note_type: Seq<char>,
    pub title: Seq<char>,
    pub content: Seq<char>,
    pub teacher: Seq<char>,
    pub creation_date: Seq<char>,
}

impl NoteView {
    pub open spec fn is_valid(self) -> bool {
        is_calendar_date(self.creation_date)
    }
}

impl View for Note {
    type V = NoteView;

    closed spec fn view(&self) -> NoteView {
        NoteView {
            id: self.id as int,
            note_type: self.note_type@,
            title: self.title@,
            content: self.content@,
            teacher: self.teacher@,
            creation_date: self.creation_date@,
        }
    }
}

impl DeepView for Note {
    type V = NoteView;

    open spec fn deep_view(&self) -> NoteView {
        self@
    }
}

/// The stable note that is made of an upstream note.
pub open spec fn refined_note(raw: UnrefinedNoteView) -> NoteView {
    NoteView {
        id: raw.note_id,
        note_type: or_placeholder(raw.note_type),
        title: or_placeholder(raw.title),
        content: or_placeholder(raw.content),
        teacher: or_placeholder(raw.teacher),
        creation_date: date_or_sentinel(raw.creating_time),
    }
}

impl UnrefinedNote {
    /// Makes the stable note of an upstream note. Every input has a result.
    pub fn refine(self) -> (r: Note)
        ensures
            r@ == refined_note(self@),
    {
        Note {
            id: self.note_id,
            note_type: text_or_placeholder(self.note_type),
            title: text_or_placeholder(self.title),
            content: text_or_placeholder(self.content),
            teacher: text_or_placeholder(self.teacher),
            creation_date: date_or_sentinel_text(self.creating_time),
        }
    }
}

impl Note {
    #[verifier::type_invariant]
    pub open spec fn well_formed(self) -> bool {
        self@.is_valid()
    }

    pub fn id(&self) -> (r: i64)
        ensures
            r == self@.id,
    {
        self.id
    }

    pub fn note_type(&self) -> (r: &String)
        ensures
            r@ == self@.note_type,
    {
        &self.note_type
    }

    pub fn title(&self) -> (r: &String)
        ensures
            r@ == self@.title,
    {
        &self.title
    }

    pub fn content(&self) -> (r: &String)
        ensures
            r@ == self@.content,
    {
        &self.content
    }

    pub fn teacher(&self) -> (r: &String)
        ensures
            r@ == self@.teacher,
    {
        &self.teacher
    }

    pub fn creation_date(&self) -> (r: &String)
        ensures
            r@ == self@.creation_date,
            is_calendar_date(r@),
    {
        proof {
            use_type_invariant(self);
        }
        &self.creation_date
    }
}

/// The stable notes that are made of upstream notes, one of each, in
/// their order.
pub open spec fn refined_notes(raw: Seq<UnrefinedNoteView>) -> Seq<NoteView> {
    Seq::new(raw.len(), |i: int| refined_note(raw[i]))
}

/// Refines every one of `raw`, in order.
pub fn refine_notes(raw: Vec<UnrefinedNote>) -> (r: Vec<Note>)
    ensures
        r.deep_view() == refined_notes(raw.deep_view()),
{
    let ghost source = raw@;
    let mut refined: Vec<Note> = Vec::new();
    for item in it: raw.into_iter()
        invariant
            it.seq() == source,
            refined.len() == it.index(),
            forall|j: int| 0 <= j < refined.len() ==> (#[trigger] refined@[j])@ == refined_note(source[j]@),
    {
        refined.push(item.refine());
    }
    refined
}

/// A note of which every text is absent refines to the placeholders and
/// the sentinel date.
pub proof fn lemma_absent_note_fields(raw: UnrefinedNoteView)
    requires
        raw.note_type is None,
        raw.title is None,
        raw.content is None,
        raw.teacher is None,
        raw.creating_time is None,
    ensures
        refined_note(raw) == (NoteView {
            id: raw.note_id,
            note_type: placeholder(),
            title: placeholder(),
            content: placeholder(),
            teacher: placeholder(),
            creation_date: sentinel_date(),
        }),
{
}

/// Whatever the upstream note holds, the creation date of the refined note
/// is a calendar date.
pub proof fn lemma_refined_note_is_valid(raw: UnrefinedNoteView)
    ensures
        refined_note(raw).is_valid(),
{
    lemma_sentinels_are_valid();
}

} // verus!
