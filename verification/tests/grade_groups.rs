use kreta_proxy::grades::{group_grades, sort_by_date, text_is_le};
use kreta_proxy::resources::{Grade, UnrefinedGrade};

fn grade(subject: &str, date: &str, topic: &str) -> Grade {
    UnrefinedGrade {
        subject: Some(String::from(subject)),
        theme: Some(String::from(topic)),
        weight: None,
        grade_type: None,
        number_value: 3,
        value: None,
        teacher: None,
        date: Some(format!("{}T00:00:00", date)),
        creating_time: None,
    }
    .refine()
}

fn topics(grades: &[Grade]) -> Vec<String> {
    grades.iter().map(|g| g.topic().clone()).collect()
}

#[test]
fn two_grades_of_a_subject_are_ordered_by_date() {
    let groups = group_grades(vec![
        grade("Maths", "2024-01-10", "later"),
        grade("Maths", "2024-01-05", "earlier"),
    ]);
    assert_eq!(groups.len(), 1);
    assert_eq!(groups[0].subject, "Maths");
    assert_eq!(groups[0].grades.len(), 2);
    assert_eq!(groups[0].grades[0].date().as_str(), "2024-01-05");
    assert_eq!(groups[0].grades[1].date().as_str(), "2024-01-10");

    let groups = group_grades(vec![
        grade("Maths", "2024-01-05", "earlier"),
        grade("Maths", "2024-01-10", "later"),
    ]);
    assert_eq!(groups[0].grades[0].date().as_str(), "2024-01-05");
    assert_eq!(groups[0].grades[1].date().as_str(), "2024-01-10");
}

#[test]
fn subjects_stand_in_the_order_of_first_occurrence() {
    let groups = group_grades(vec![
        grade("Physics", "2024-02-01", "physics late"),
        grade("Art", "2024-01-01", "art late"),
        grade("Physics", "2024-01-15", "physics early"),
        grade("Maths", "2023-12-01", "maths"),
        grade("Art", "2023-11-01", "art early"),
    ]);
    let subjects: Vec<&str> = groups.iter().map(|g| g.subject.as_str()).collect();
    assert_eq!(subjects, vec!["Physics", "Art", "Maths"]);
    assert_eq!(topics(&groups[0].grades), vec!["physics early", "physics late"]);
    assert_eq!(topics(&groups[1].grades), vec!["art early", "art late"]);
    assert_eq!(topics(&groups[2].grades), vec!["maths"]);
}

#[test]
fn grouping_no_grades_gives_no_groups() {
    assert!(group_grades(Vec::new()).is_empty());
}

#[test]
fn grades_of_one_date_keep_their_order() {
    let sorted = sort_by_date(vec![
        grade("S", "2024-05-02", "b1"),
        grade("S", "2024-05-01", "art late"),
        grade("S", "2024-05-02", "b2"),
        grade("S", "2024-05-01", "art early"),
        grade("S", "2024-04-30", "z"),
        grade("S", "2024-05-02", "b3"),
    ]);
    assert_eq!(topics(&sorted), vec!["z", "art late", "art early", "b1", "b2", "b3"]);
}

#[test]
fn sorting_keeps_every_grade() {
    let dates = ["2024-03-03", "2021-12-31", "2024-03-01", "2022-06-15", "2021-12-31"];
    let grades: Vec<Grade> =
        dates.iter().enumerate().map(|(i, d)| grade("S", d, &i.to_string())).collect();
    let sorted = sort_by_date(grades);
    let got: Vec<&str> = sorted.iter().map(|g| g.date().as_str()).collect();
    assert_eq!(got, vec!["2021-12-31", "2021-12-31", "2022-06-15", "2024-03-01", "2024-03-03"]);
    assert_eq!(topics(&sorted), vec!["1", "4", "3", "2", "0"]);
}

#[test]
fn subjects_differ_by_case_and_space() {
    let groups = group_grades(vec![
        grade("maths", "2024-01-01", "1"),
        grade("Maths", "2024-01-01", "2"),
        grade("Maths ", "2024-01-01", "3"),
    ]);
    assert_eq!(groups.len(), 3);
}

#[test]
fn text_order_is_by_character() {
    assert!(text_is_le("", ""));
    assert!(text_is_le("", "a"));
    assert!(!text_is_le("a", ""));
    assert!(text_is_le("2024-01-05", "2024-01-10"));
    assert!(!text_is_le("2024-01-10", "2024-01-05"));
    assert!(text_is_le("2024-01-05", "2024-01-05"));
    assert!(text_is_le("abc", "abcd"));
    assert!(!text_is_le("abd", "abcd"));
    assert!(text_is_le("Z", "a"));
    assert!(text_is_le("z", "é"));
    assert!(text_is_le("\u{ffff}", "\u{10000}"));
    for (a, b) in [("a", "b"), ("10", "9"), ("é", "z"), ("", "x"), ("same", "same")] {
        assert_eq!(text_is_le(a, b), a <= b);
        assert_eq!(text_is_le(b, a), b <= a);
    }
}
