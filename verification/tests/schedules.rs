use kreta_proxy::resources::{Lesson, UnrefinedLesson};
use kreta_proxy::schedule::group_by_weekday;

fn lesson(date: &str, topic: &str) -> Lesson {
    UnrefinedLesson {
        count: 1,
        date: Some(format!("{}T00:00:00", date)),
        start_time: None,
        end_time: None,
        nev: None,
        class_room: None,
        class_group: None,
        teacher: None,
        state_name: None,
        theme: Some(String::from(topic)),
    }
    .refine()
}

fn topics(lessons: &[Lesson]) -> Vec<String> {
    lessons.iter().map(|l| l.topic().clone()).collect()
}

#[test]
fn lessons_are_keyed_by_weekday_from_monday() {
    // 2024-03-04 is a Monday, 2024-03-10 a Sunday.
    let week = group_by_weekday(vec![
        lesson("2024-03-04", "mon"),
        lesson("2024-03-06", "wed"),
        lesson("2024-03-10", "sun"),
    ]);
    assert_eq!(topics(week.get("0").unwrap()), vec!["mon"]);
    assert_eq!(topics(week.get("2").unwrap()), vec!["wed"]);
    assert_eq!(topics(week.get("6").unwrap()), vec!["sun"]);
    assert!(week.get("1").is_none());
    assert!(week.get("3").is_none());
    assert!(week.get("4").is_none());
    assert!(week.get("5").is_none());
}

#[test]
fn keys_are_one_digit_of_a_weekday() {
    let week = group_by_weekday(vec![lesson("2024-03-04", "mon")]);
    assert!(week.get("").is_none());
    assert!(week.get("7").is_none());
    assert!(week.get("00").is_none());
    assert!(week.get("0 ").is_none());
    assert!(week.get("x").is_none());
    assert!(week.get("٠").is_none());
    assert!(week.get("0").is_some());
}

#[test]
fn lessons_of_a_day_keep_their_order() {
    let week = group_by_weekday(vec![
        lesson("2024-03-11", "second monday"),
        lesson("2024-03-05", "tue"),
        lesson("2024-03-04", "first monday"),
        lesson("2024-03-12", "second tue"),
        lesson("2024-03-18", "third monday"),
    ]);
    assert_eq!(
        topics(week.day(0).unwrap()),
        vec!["second monday", "first monday", "third monday"]
    );
    assert_eq!(topics(week.day(1).unwrap()), vec!["tue", "second tue"]);
    for day in 2..7u8 {
        assert!(week.day(day).unwrap().is_empty());
    }
    assert!(week.day(7).is_none());
    assert!(week.day(255).is_none());
}

#[test]
fn grouping_keeps_every_lesson_once() {
    let dates = [
        "2024-03-09", "2024-03-04", "2024-03-08", "2024-03-04", "2024-03-10", "2024-03-05",
        "2024-03-07", "2024-03-06", "2024-03-09",
    ];
    let lessons: Vec<Lesson> =
        dates.iter().enumerate().map(|(i, d)| lesson(d, &i.to_string())).collect();
    let entries = group_by_weekday(lessons).into_entries();
    let keys: Vec<&str> = entries.iter().map(|e| e.0.as_str()).collect();
    assert_eq!(keys, vec!["0", "1", "2", "3", "4", "5", "6"]);
    let all: Vec<String> = entries.iter().flat_map(|e| topics(&e.1)).collect();
    assert_eq!(all, vec!["1", "3", "5", "7", "6", "2", "0", "8", "4"]);
    let mut sorted = all.clone();
    sorted.sort();
    assert_eq!(sorted, vec!["0", "1", "2", "3", "4", "5", "6", "7", "8"]);
}

#[test]
fn entries_hold_only_days_with_lessons() {
    let entries =
        group_by_weekday(vec![lesson("2024-03-08", "fri"), lesson("2024-03-05", "tue")])
            .into_entries();
    assert_eq!(entries.len(), 2);
    assert_eq!(entries[0].0, "1");
    assert_eq!(topics(&entries[0].1), vec!["tue"]);
    assert_eq!(entries[1].0, "4");
    assert_eq!(topics(&entries[1].1), vec!["fri"]);
}

#[test]
fn an_empty_schedule_has_no_keys() {
    let week = group_by_weekday(Vec::new());
    for key in ["0", "1", "2", "3", "4", "5", "6"] {
        assert!(week.get(key).is_none());
    }
    assert!(group_by_weekday(Vec::new()).into_entries().is_empty());
}

#[test]
fn a_lesson_without_date_falls_on_the_sentinel_day() {
    // 1999-09-19 is a Sunday.
    let raw = UnrefinedLesson {
        count: 1,
        date: None,
        start_time: None,
        end_time: None,
        nev: None,
        class_room: None,
        class_group: None,
        teacher: None,
        state_name: None,
        theme: None,
    };
    let week = group_by_weekday(vec![raw.refine()]);
    assert_eq!(week.get("6").unwrap().len(), 1);
}
