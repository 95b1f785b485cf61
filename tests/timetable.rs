use class_sync::column::{ColumnRes, TimeStamp};
use class_sync::prompt::{extract_json, llm_schema_prompt, SCHEMA_HEAD, SCHEMA_TAIL};
use class_sync::rate::check_rate;
use class_sync::schedule::{
    parse_time, parse_time_block, DaySchedule, ExtTimetable, Subject, TimeInfo, TimeSlot,
    TimetableData, YearData, YearEntry,
};
use class_sync::slot::{Batch, SlotRes};

fn strings(v: &[&str]) -> Vec<String> {
    v.iter().map(|s| s.to_string()).collect()
}

#[test]
fn test_main() {
    let a = SlotRes::frm_str("PF7F8F9(15B17CI373)/CL3/PAM/PRM/MIT");
    println!("{:?}", a);
}

#[test]
fn cell_fields_are_read() {
    let a = SlotRes::frm_str("PF7F8F9(15B17CI373)/CL3/PAM/PRM/MIT");
    assert_eq!(a.slot_purpose.as_deref(), Some("P"));
    assert_eq!(a.batch, Some(strings(&["F7", "F8", "F9"])));
    assert_eq!(a.course.as_deref(), Some("15B17CI373"));
    assert_eq!(a.room.as_deref(), Some("CL3"));
    assert_eq!(a.teacher, Some(strings(&["PAM", "PRM", "MIT"])));
}

#[test]
fn cell_with_dash_room_and_all_batches() {
    let a = SlotRes::frm_str("lALL(15B11MA111)-G1/ABC");
    assert_eq!(a.slot_purpose.as_deref(), Some("L"));
    assert_eq!(a.batch, Some(strings(&["ALL"])));
    assert_eq!(a.course.as_deref(), Some("15B11MA111"));
    assert_eq!(a.room.as_deref(), Some("G1"));
    assert_eq!(a.teacher, Some(strings(&["ABC"])));
    // with three place fields the middle one is the room
    let b = SlotRes::frm_str(" t F2(15B11MA111)-G1/ABC / XYZ");
    assert_eq!(b.slot_purpose.as_deref(), Some("T"));
    assert_eq!(b.batch, Some(strings(&["F2"])));
    assert_eq!(b.room.as_deref(), Some("ABC"));
    assert_eq!(b.teacher, Some(strings(&["XYZ"])));
}

#[test]
fn cell_without_bracket_uses_defaults() {
    let a = SlotRes::frm_str("T");
    assert_eq!(a.batch, Some(strings(&["F1"])));
    assert_eq!(a.course.as_deref(), Some("15B11PH111"));
    assert_eq!(a.room.as_deref(), Some("T"));
    assert_eq!(a.teacher, Some(strings(&["T"])));
    let b = SlotRes::frm_str("");
    assert_eq!(b.slot_purpose.as_deref(), Some(""));
}

#[test]
fn cell_batch_scanning_rules() {
    // "ALl" reads as All, "AL" followed by digits as Al<digits>, a lone letter is dropped
    let a = SlotRes::frm_str("LALlF3AL5X(15B11MA111)/R/T");
    assert_eq!(a.batch, Some(strings(&["All", "F3", "Al5"])));
    let b = SlotRes::frm_str("LE15,E16(15B11MA111)/R/T");
    assert_eq!(b.batch, Some(strings(&["E15", "E16"])));
}

#[test]
fn batch_codes() {
    let b = Batch::new(&"F7".to_string()).unwrap();
    assert_eq!((b.prefix.as_str(), b.distinction), ("F", 7));
    let e = Batch::new(&"E16".to_string()).unwrap();
    assert_eq!((e.prefix.as_str(), e.distinction), ("E", 16));
    assert!(Batch::new(&"F12".to_string()).is_none());
    assert!(Batch::new(&"E14".to_string()).is_none());
    assert!(Batch::new(&"G1".to_string()).is_none());
    assert!(Batch::new(&"F".to_string()).is_none());
    assert!(Batch::new(&"F100".to_string()).is_none());
    assert_eq!(Batch::new(&"F+1".to_string()).unwrap().distinction, 1);
}

#[test]
fn batch_lists() {
    let all = Batch::parse_vec(&strings(&["All"])).unwrap();
    assert_eq!(all.len(), 14);
    assert_eq!((all[0].prefix.as_str(), all[0].distinction), ("F", 1));
    assert_eq!((all[10].prefix.as_str(), all[10].distinction), ("F", 11));
    assert_eq!((all[11].prefix.as_str(), all[11].distinction), ("E", 15));
    assert_eq!((all[13].prefix.as_str(), all[13].distinction), ("E", 17));
    let two = Batch::parse_vec(&strings(&["F1", "E15"])).unwrap();
    assert_eq!(two.len(), 2);
    assert_eq!(two[1].distinction, 15);
    assert!(Batch::parse_vec(&strings(&["F1", "X"])).is_none());
    assert!(Batch::parse_vec(&strings(&["all", "F1"])).is_none());
    assert_eq!(Batch::parse_vec(&Vec::new()).unwrap().len(), 0);
}

#[test]
fn column_from_heading() {
    let c = ColumnRes::frm_json("9:00 - 9:50", &strings(&["PF1(15B11PH111)/G1/AB"]));
    assert_eq!(c.start_time, TimeStamp { hr: 9, min: 0 });
    assert_eq!(c.duration, 50);
    assert_eq!(c.schedules.len(), 1);
    assert_eq!(c.schedules[0].room.as_deref(), Some("G1"));
    let pm = ColumnRes::frm_json("9:00AM - 10:00PM", &Vec::new());
    assert_eq!(pm.start_time, TimeStamp { hr: 9, min: 0 });
    assert_eq!(pm.duration, 780);
    let noon = ColumnRes::frm_json("12:30AM - 12:45PM", &Vec::new());
    assert_eq!(noon.start_time, TimeStamp { hr: 0, min: 30 });
    assert_eq!(noon.duration, 735);
    // a space before the AM mark leaves the minutes unreadable
    let spaced = ColumnRes::frm_json("07:00 AM - 09:00 AM", &Vec::new());
    assert_eq!(spaced.start_time, TimeStamp { hr: 0, min: 0 });
    assert_eq!(spaced.duration, 0);
    let backwards = ColumnRes::frm_json("10:00 - 9:00", &Vec::new());
    assert_eq!(backwards.duration, 0);
    let single = ColumnRes::frm_json("10:00", &Vec::new());
    assert_eq!(single.start_time, TimeStamp { hr: 10, min: 0 });
    assert_eq!(single.duration, 0);
}

#[test]
fn timestamp_from_minutes() {
    assert_eq!(TimeStamp::from(605u16), TimeStamp { hr: 10, min: 5 });
    assert_eq!(TimeStamp::from(0u16), TimeStamp { hr: 0, min: 0 });
    assert_eq!(TimeStamp::from(65535u16), TimeStamp { hr: 68, min: 15 });
}

fn day(slots: &[(&str, &[&str])]) -> DaySchedule {
    DaySchedule {
        time_slots: slots.iter().map(|(t, c)| TimeSlot { time: t.to_string(), classes: strings(c) }).collect(),
    }
}

fn year() -> YearData {
    let empty = day(&[]);
    YearData {
        timetable: ExtTimetable {
            monday: day(&[("9:00 - 9:50", &["LF1(15B11PH111)/G1/AB"]), ("10:00 - 10:50", &[])]),
            tuesday: day(&[("8:00 - 8:50", &[])]),
            wednesday: empty.clone(),
            thursday: empty.clone(),
            friday: empty.clone(),
            saturday: empty,
        },
        subjects: vec![
            Subject { code: "PH111".to_string(), full_code: "15B11PH111".to_string(), subject: "Physics".to_string() },
            Subject { code: "MA111".to_string(), full_code: "15B11MA111".to_string(), subject: "Maths".to_string() },
        ],
    }
}

#[test]
fn year_and_day_lookups() {
    let y = year();
    assert_eq!(y.get_subject_by_code("MA111").unwrap().subject, "Maths");
    assert!(y.get_subject_by_code("CS101").is_none());
    assert_eq!(y.get_day_schedule("monday").unwrap().time_slots.len(), 2);
    assert_eq!(y.get_day_schedule("Tues").unwrap().time_slots[0].time, "8:00 - 8:50");
    assert!(y.get_day_schedule("sun").is_none());
    assert!(y.schedule_for_upper("THURSDAY").is_some());
    assert!(y.schedule_for_upper("thursday").is_none());
    let mon = y.get_day_schedule("MON").unwrap();
    assert_eq!(mon.get_all_time_slots(), strings(&["9:00 - 9:50", "10:00 - 10:50"]));
    assert_eq!(mon.get_classes_at_time("9:00 - 9:50").unwrap().len(), 1);
    assert!(mon.get_classes_at_time("11:00 - 11:50").is_none());
    let cols = mon.transform();
    assert_eq!(cols.len(), 2);
    assert_eq!(cols[0].duration, 50);
    assert_eq!(cols[0].schedules[0].slot_purpose.as_deref(), Some("L"));
    assert_eq!(cols[1].start_time, TimeStamp { hr: 10, min: 0 });
    let data = TimetableData {
        years: vec![YearEntry { year: "Y1".to_string(), data: y.clone() }, YearEntry { year: "Y2".to_string(), data: y }],
    };
    assert_eq!(data.get_all_years(), strings(&["Y1", "Y2"]));
    assert!(data.get_year_data("Y2").is_some());
    assert!(data.get_year_data("Y3").is_none());
}

#[test]
fn json_is_extracted() {
    assert_eq!(extract_json("Sure! {\"a\": {\"b\": 1}} done").as_deref(), Some("{\"a\": {\"b\": 1}}"));
    assert_eq!(extract_json("} then {"), None);
    assert_eq!(extract_json("no braces"), None);
    assert_eq!(extract_json("{only open"), None);
}

#[test]
fn schema_prompt_lists_examples() {
    let content = "header\n  CSC209 MON 07:00-09:00 G112 Tabo, D.  \nshort MON\nlower mon 07:00-09:00 x\nMTH201 TUE 09:00-10:00 G113 Smith\n";
    let p = llm_schema_prompt(content);
    let block = "\n- CSC209 MON 07:00-09:00 G112 Tabo, D.\n- MTH201 TUE 09:00-10:00 G113 Smith";
    assert_eq!(p, format!("{}{}{}", SCHEMA_HEAD, block, SCHEMA_TAIL));
    let many: String = (0..8).map(|i| format!("C{} FRI 08:00-09:00 R\n", i)).collect();
    let q = llm_schema_prompt(&many);
    assert_eq!(q.matches("\n- C").count(), 6);
    assert_eq!(llm_schema_prompt(""), format!("{}{}", SCHEMA_HEAD, SCHEMA_TAIL));
}

#[test]
fn rate_limit_window() {
    let mut stamps: Vec<i64> = Vec::new();
    let t0: i64 = 1_000_000;
    for k in 0..5 {
        assert!(check_rate(&mut stamps, t0 + k));
    }
    assert!(!check_rate(&mut stamps, t0 + 10));
    assert_eq!(stamps.len(), 5);
    assert!(check_rate(&mut stamps, t0 + 60_001));
    assert_eq!(stamps, vec![t0 + 1, t0 + 2, t0 + 3, t0 + 4, t0 + 60_001]);
}

#[test]
fn times_of_day() {
    assert_eq!(parse_time("9:30 pm"), Some((21, 30)));
    assert_eq!(parse_time(" 12:15 AM"), Some((0, 15)));
    assert_eq!(parse_time("12:00"), Some((12, 0)));
    assert_eq!(parse_time("12:00 PM"), Some((12, 0)));
    assert_eq!(parse_time("7:05"), Some((7, 5)));
    assert_eq!(parse_time("13:00"), None);
    assert_eq!(parse_time("9:60"), None);
    assert_eq!(parse_time("9"), None);
    assert_eq!(parse_time("x:10"), None);
}

#[test]
fn time_ranges() {
    assert_eq!(parse_time_block("9:00 - 10:30 AM"), Some(TimeInfo { start: 9, dur: 90 }));
    assert_eq!(parse_time_block("1:00 - 2:00 PM"), Some(TimeInfo { start: 13, dur: 60 }));
    assert_eq!(parse_time_block("11:00 AM - 1:00 PM"), Some(TimeInfo { start: 11, dur: 120 }));
    assert_eq!(parse_time_block("10:00 - 9:00"), None);
    assert_eq!(parse_time_block("9:00"), None);
    assert_eq!(parse_time_block("1-2-3"), None);
}

#[test]
fn week_days_are_read() {
    let y = year();
    let days = y.timetable.transform();
    assert_eq!(days.len(), 6);
    for (i, d) in days.iter().enumerate() {
        assert_eq!(d.day as usize, i);
    }
    assert_eq!(days[0].cols.len(), 2);
    assert_eq!(days[0].cols[0].duration, 50);
    assert_eq!(days[1].cols[0].start_time, TimeStamp { hr: 8, min: 0 });
    assert!(days[5].cols.is_empty());
}

#[test]
fn cell_lengths_by_purpose() {
    assert_eq!(SlotRes::frm_str("PF1(15B11PH111)/L1/AB").get_duration(), 110);
    assert_eq!(SlotRes::frm_str("LF1(15B11PH111)/L1/AB").get_duration(), 50);
    let none = SlotRes { slot_purpose: None, batch: None, course: None, room: None, teacher: None };
    assert_eq!(none.get_duration(), 0);
}
