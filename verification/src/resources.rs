//! The records of the upstream service as it sends them, and the stable
//! records that are made of them.

pub mod account;
pub mod average;
pub mod defaults;
pub mod form_teacher;
pub mod grade;
pub mod lesson;
pub mod note;
pub mod profile;
pub mod task;

pub use account::{Authentication, KretaErrorResponse, School};
pub use average::{Average, AverageView, UnrefinedAverage, UnrefinedAverageView};
pub use form_teacher::{
    FormTeacher, FormTeacherView, UnrefinedFormTeacher, UnrefinedFormTeacherView,
};
pub use grade::{Grade, GradeView, UnrefinedGrade, UnrefinedGradeView};
pub use lesson::{Lesson, LessonView, UnrefinedLesson, UnrefinedLessonView};
pub use note::{Note, NoteView, UnrefinedNote, UnrefinedNoteView};
pub use profile::{Profile, ProfileView, UnrefinedProfile, UnrefinedProfileView};
pub use task::{Task, TaskView, UnrefinedTask, UnrefinedTaskView};
