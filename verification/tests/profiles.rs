use kreta_proxy::resources::average::refine_averages;
use kreta_proxy::resources::note::refine_notes;
use kreta_proxy::resources::task::refine_tasks;
use kreta_proxy::resources::{
    Authentication, KretaErrorResponse, School, UnrefinedAverage, UnrefinedFormTeacher,
    UnrefinedGrade, UnrefinedNote, UnrefinedProfile, UnrefinedTask,
};

fn text(s: &str) -> Option<String> {
    Some(String::from(s))
}

fn empty_note(id: i64) -> UnrefinedNote {
    UnrefinedNote {
        note_id: id,
        note_type: None,
        title: None,
        content: None,
        teacher: None,
        creating_time: None,
    }
}

fn empty_grade() -> UnrefinedGrade {
    UnrefinedGrade {
        subject: None,
        theme: None,
        weight: None,
        grade_type: None,
        number_value: 0,
        value: None,
        teacher: None,
        date: None,
        creating_time: None,
    }
}

#[test]
fn refines_an_empty_note_to_placeholders() {
    let note = empty_note(-7).refine();
    assert_eq!(note.id(), -7);
    assert_eq!(note.note_type().as_str(), "-");
    assert_eq!(note.title().as_str(), "-");
    assert_eq!(note.content().as_str(), "-");
    assert_eq!(note.teacher().as_str(), "-");
    assert_eq!(note.creation_date().as_str(), "1999-09-19");
}

#[test]
fn refines_a_full_note() {
    let note = UnrefinedNote {
        note_id: 12,
        note_type: text("Praise"),
        title: text("Well done"),
        content: text("Helped a classmate"),
        teacher: text("Jane Doe"),
        creating_time: text("2024-05-06T07:08:09"),
    }
    .refine();
    assert_eq!(note.id(), 12);
    assert_eq!(note.note_type().as_str(), "Praise");
    assert_eq!(note.title().as_str(), "Well done");
    assert_eq!(note.content().as_str(), "Helped a classmate");
    assert_eq!(note.teacher().as_str(), "Jane Doe");
    assert_eq!(note.creation_date().as_str(), "2024-05-06");
}

#[test]
fn a_note_keeps_an_empty_text() {
    let mut raw = empty_note(1);
    raw.title = text("");
    raw.creating_time = text("");
    let note = raw.refine();
    assert_eq!(note.title().as_str(), "");
    assert_eq!(note.creation_date().as_str(), "1999-09-19");
}

#[test]
fn refines_a_form_teacher() {
    let teacher = UnrefinedFormTeacher {
        teacher_id: 99,
        name: text("Jane Doe"),
        email: None,
        phone_number: text("+36 1 234 5678"),
    }
    .refine();
    assert_eq!(teacher.id, 99);
    assert_eq!(teacher.name, "Jane Doe");
    assert_eq!(teacher.email, "-");
    assert_eq!(teacher.phone_number, "+36 1 234 5678");
}

#[test]
fn refines_a_task() {
    let task = UnrefinedTask {
        id: 5,
        datum: text("2024-06-10T00:00:00"),
        bejelentes_datuma: text("2024-06-01T10:00:00Z"),
        tantargy: text("Maths"),
        tanar: text("Jane Doe"),
        szamonkeres_megnevezese: text("Geometry"),
        szamonkeres_modja: text("Written"),
    }
    .refine();
    assert_eq!(task.id(), 5);
    assert_eq!(task.date().as_str(), "2024-06-10");
    assert_eq!(task.creation_date().as_str(), "2024-06-01");
    assert_eq!(task.subject().as_str(), "Maths");
    assert_eq!(task.teacher().as_str(), "Jane Doe");
    assert_eq!(task.topic().as_str(), "Geometry");
    assert_eq!(task.grade_type().as_str(), "Written");
}

#[test]
fn refines_an_empty_task_to_placeholders() {
    let tasks = refine_tasks(vec![UnrefinedTask {
        id: 0,
        datum: None,
        bejelentes_datuma: None,
        tantargy: None,
        tanar: None,
        szamonkeres_megnevezese: None,
        szamonkeres_modja: None,
    }]);
    assert_eq!(tasks.len(), 1);
    assert_eq!(tasks[0].date().as_str(), "1999-09-19");
    assert_eq!(tasks[0].creation_date().as_str(), "1999-09-19");
    assert_eq!(tasks[0].subject().as_str(), "-");
    assert_eq!(tasks[0].teacher().as_str(), "-");
    assert_eq!(tasks[0].topic().as_str(), "-");
    assert_eq!(tasks[0].grade_type().as_str(), "-");
}

#[test]
fn averages_pass_their_numbers_through() {
    let average = UnrefinedAverage { subject: None, value: 4.25f64, class_value: 3.5, difference: 0.75 }
        .refine();
    assert_eq!(average.subject, "-");
    assert_eq!(average.grade, 4.25);
    assert_eq!(average.class_grade, 3.5);
    assert_eq!(average.difference, 0.75);

    let averages = refine_averages(vec![
        UnrefinedAverage { subject: text("Maths"), value: 1.0f64, class_value: 2.0, difference: -1.0 },
        UnrefinedAverage { subject: text("Art"), value: f64::NAN, class_value: 0.0, difference: 0.0 },
    ]);
    assert_eq!(averages[0].subject, "Maths");
    assert_eq!(averages[0].difference, -1.0);
    assert_eq!(averages[1].subject, "Art");
    assert!(averages[1].grade.is_nan());
}

#[test]
fn refines_a_profile() {
    let mut graded = empty_grade();
    graded.number_value = 5;
    graded.subject = text("Maths");
    let profile = UnrefinedProfile {
        name: text("Student"),
        institute_name: None,
        student_id: 42,
        evaluations: Some(vec![graded, empty_grade()]),
        subject_averages: Some(vec![UnrefinedAverage {
            subject: text("Maths"),
            value: 4.5f64,
            class_value: 4.0,
            difference: 0.5,
        }]),
        notes: Some(vec![empty_note(1), empty_note(2)]),
        form_teacher: Some(UnrefinedFormTeacher {
            teacher_id: 3,
            name: None,
            email: text("jane@example.org"),
            phone_number: None,
        }),
    }
    .refine();
    assert_eq!(profile.id, 42);
    assert_eq!(profile.name, "Student");
    assert_eq!(profile.school_name, "-");
    assert_eq!(profile.grades.len(), 2);
    assert_eq!(profile.grades[0].grade().as_str(), "5");
    assert_eq!(profile.grades[1].grade().as_str(), "-");
    assert_eq!(profile.averages.len(), 1);
    assert_eq!(profile.averages[0].grade, 4.5);
    assert_eq!(profile.notes.len(), 2);
    assert_eq!(profile.notes[1].id(), 2);
    let form = profile.form_teacher.unwrap();
    assert_eq!(form.id, 3);
    assert_eq!(form.name, "-");
    assert_eq!(form.email, "jane@example.org");
}

#[test]
fn refines_an_empty_profile() {
    let profile = UnrefinedProfile::<f64> {
        name: None,
        institute_name: text("School"),
        student_id: u64::MAX,
        evaluations: None,
        subject_averages: None,
        notes: None,
        form_teacher: None,
    }
    .refine();
    assert_eq!(profile.id, u64::MAX);
    assert_eq!(profile.name, "-");
    assert_eq!(profile.school_name, "School");
    assert!(profile.grades.is_empty());
    assert!(profile.averages.is_empty());
    assert!(profile.notes.is_empty());
    assert!(profile.form_teacher.is_none());
}

#[test]
fn refines_every_note_in_order() {
    let notes = refine_notes(vec![empty_note(3), empty_note(1), empty_note(2)]);
    let ids: Vec<i64> = notes.iter().map(|n| n.id()).collect();
    assert_eq!(ids, vec![3, 1, 2]);
}

#[test]
fn pass_through_records_hold_their_fields() {
    let school = School {
        institute_id: 1,
        institute_code: String::from("code"),
        name: String::from("name"),
        url: String::from("url"),
        city: String::from("city"),
    };
    assert_eq!(school.institute_id, 1);
    assert_eq!(school.city, "city");
    let tokens = Authentication {
        access_token: String::from("a"),
        token_type: String::from("bearer"),
        expires_in: 3600,
        refresh_token: String::from("r"),
    };
    assert_eq!(tokens.access_token, "a");
    assert_eq!(tokens.expires_in, 3600);
    let refused = KretaErrorResponse {
        error: String::from("e"),
        error_code: String::from("c"),
        error_description: String::from("d"),
    };
    assert_eq!(refused.error_description, "d");
}
