use class_sync::selection::{
    clash_warning, pick_timetable, selected_classes, StudentProfile, TimetableHeader,
};

fn header(fac: &str, kind: &str, from: Option<i64>, until: Option<i64>) -> TimetableHeader {
    TimetableHeader {
        faculty: fac.to_string(),
        department: String::new(),
        level: String::new(),
        kind: kind.to_string(),
        active_from: from,
        active_until: until,
    }
}

fn student() -> StudentProfile {
    StudentProfile { faculty: "Sci".to_string(), department: "CS".to_string(), level: "200".to_string() }
}

fn strings(v: &[&str]) -> Vec<String> {
    v.iter().map(|s| s.to_string()).collect()
}

#[test]
fn no_timetable_no_pick() {
    assert_eq!(pick_timetable(&Vec::new(), &student(), 0), None);
}

#[test]
fn exam_in_force_wins() {
    let ts = vec![
        header("Sci", "Lecture", None, None),
        header("Sci", "CA", Some(0), Some(100)),
        header("Sci", "Exam", Some(50), Some(100)),
        header("Sci", "Exam", Some(0), Some(100)),
    ];
    assert_eq!(pick_timetable(&ts, &student(), 60), Some(2));
    assert_eq!(pick_timetable(&ts, &student(), 10), Some(3));
    assert_eq!(pick_timetable(&ts, &student(), 100), Some(2));
}

#[test]
fn other_faculty_is_ignored_unless_nothing_matches() {
    let ts = vec![header("Arts", "Exam", None, None), header("", "Lecture", None, None)];
    assert_eq!(pick_timetable(&ts, &student(), 5), Some(1));
    let only_other = vec![header("Arts", "Lecture", None, None), header("Law", "CA", None, None)];
    assert_eq!(pick_timetable(&only_other, &student(), 5), Some(1));
}

#[test]
fn none_in_force_takes_last_considered() {
    let ts = vec![
        header("Sci", "Exam", Some(100), None),
        header("Sci", "CA", None, Some(1)),
        header("Arts", "Lecture", None, None),
    ];
    assert_eq!(pick_timetable(&ts, &student(), 50), Some(1));
}

#[test]
fn classes_of_selected_courses() {
    let classes = strings(&["CS101", "MA111", "CS101", "PH111"]);
    assert_eq!(selected_classes(&classes, &strings(&["CS101", "PH111"])), vec![0, 2, 3]);
    assert!(selected_classes(&classes, &Vec::new()).is_empty());
}

#[test]
fn clash_warning_text() {
    assert_eq!(clash_warning(9, 5, &strings(&["CS101", "MA111"])), "Clash at 09:05 -> CS101, MA111");
    assert_eq!(clash_warning(14, 30, &strings(&["A"])), "Clash at 14:30 -> A");
    assert_eq!(clash_warning(-1, 120, &Vec::new()), format!("Clash at {:02}:{:02} -> ", -1, 120));
}
