use vstd::prelude::*;
use crate::column::{DayRes, TimeStamp};

verus! {

// ---------------------------------------------------------------------------
// What the language model is asked to return
// ---------------------------------------------------------------------------

/// A teacher: the abbreviation used in timetables and the full name.
#[derive(Clone, Debug, Default)]
pub struct Teach {
    pub abbreviation: String,
    pub name: String,
}

/// A course: its code and title.
#[derive(Clone, Debug, Default)]
pub struct Subject {
    pub code: String,
    pub title: String,
}

/// The teachers and courses found in a timetable document.
#[derive(Clone, Debug, Default)]
pub struct TimeTableinfo {
    pub teachers: Option<Vec<Teach>>,
    pub subjects: Option<Vec<Subject>>,
}

/// One class as the model lists it inside a column.
#[derive(Clone, Debug, Default)]
pub struct LLMSlot {
    pub subject_code: String,
    pub subject_title: Option<String>,
    pub group: Option<String>,
    pub level: Option<String>,
    pub start: String,
    pub end: String,
    pub rooms: Vec<String>,
    pub teachers: Vec<String>,
    pub purpose: String,
    pub raw_text: Option<String>,
    pub conflict: Option<bool>,
}

/// One entry of a column in the detailed schema.
#[derive(Clone, Debug, Default)]
pub struct LLMEntry {
    pub purpose: String,
    pub course_code: String,
    pub course_title: Option<String>,
    pub batches: Option<Vec<String>>,
    pub teachers: Vec<String>,
    pub room: Option<String>,
    pub weeks: Option<String>,
}

/// One column of a day in the detailed schema.
#[derive(Clone, Debug, Default)]
pub struct LLMColumn {
    pub name: Option<String>,
    pub slots: Option<Vec<LLMSlot>>,
    pub start_time: Option<TimeStamp>,
    pub end_time: Option<TimeStamp>,
    pub duration_min: Option<u32>,
    pub entries: Option<Vec<LLMEntry>>,
}

/// Where the parsed text came from.
#[derive(Clone, Debug, Default)]
pub struct SourceMeta {
    pub pages: u32,
    pub extracted_snippet: Option<String>,
}

/// A course of the detailed schema; `kind` is its type ("major", ...).
#[derive(Clone, Debug, Default)]
pub struct CourseInfo {
    pub code: String,
    pub title: String,
    pub kind: Option<String>,
}

/// A room of the detailed schema.
#[derive(Clone, Debug, Default)]
pub struct RoomInfo {
    pub code: String,
    pub description: String,
}

// ---------------------------------------------------------------------------
// Timetable uploads
// ---------------------------------------------------------------------------

/// A timetable as uploaded, before its cells are resolved.
#[derive(Clone, Debug)]
pub struct TimeTableRes {
    pub ver: String,
    pub days: Vec<DayRes>,
    pub kind: Option<String>,
    pub active_from: Option<String>,
    pub active_until: Option<String>,
    pub faculty: Option<String>,
    pub department: Option<String>,
    pub level: Option<String>,
}

/// An upload request: the administrator key and the timetable.
#[derive(Clone, Debug)]
pub struct Res {
    pub key: String,
    pub timetable: Option<TimeTableRes>,
}

/// A reminder or message stored for a user; times are Unix milliseconds.
#[derive(Clone, Debug, Default)]
pub struct Notification {
    pub kind: String,
    pub course_code: Option<String>,
    pub user_id: Option<String>,
    pub day: Option<u8>,
    pub start_hr: Option<u8>,
    pub start_min: Option<u8>,
    /// Minutes before the class at which to remind, such as 60, 30 and 5.
    pub offsets_min: Option<Vec<i32>>,
    pub message: Option<String>,
    pub created_at: Option<i64>,
}

// ---------------------------------------------------------------------------
// Requests and answers of the other operations
// ---------------------------------------------------------------------------

/// Where to read a document to parse.
#[derive(Clone, Debug, Default)]
pub struct ParseQuery {
    pub path: Option<String>,
}

/// A sign-up request.
#[derive(Clone, Debug, Default)]
pub struct SignupBody {
    pub name: String,
    pub level: String,
    pub matricule: String,
    pub faculty: String,
    pub department: String,
    pub password: String,
    pub phone: Option<String>,
    pub network: Option<String>,
}

/// The answer to a sign-up.
#[derive(Clone, Debug, Default)]
pub struct SignupRes {
    pub user_id: String,
    pub token: String,
}

/// A log-in request.
#[derive(Clone, Debug, Default)]
pub struct LoginBody {
    pub matricule: String,
    pub password: String,
}

/// The answer to a log-in.
#[derive(Clone, Debug, Default)]
pub struct LoginRes {
    pub token: String,
}

/// A search among courses.
#[derive(Clone, Debug, Default)]
pub struct ListQuery {
    pub search: Option<String>,
}

/// A course in a listing.
#[derive(Clone, Debug, Default)]
pub struct CourseItem {
    pub code: String,
    pub name: String,
}

/// A listing of courses.
#[derive(Clone, Debug, Default)]
pub struct ListRes {
    pub data: Vec<CourseItem>,
}

/// A course chosen by a student, and in which category.
#[derive(Clone, Debug, Default)]
pub struct Selection {
    pub code: String,
    pub category: String,
}

/// A student's course choices.
#[derive(Clone, Debug, Default)]
pub struct SelectBody {
    pub selections: Vec<Selection>,
}

/// Switches a course's notifications on or off.
#[derive(Clone, Copy, Debug, Default)]
pub struct ToggleBody {
    pub enabled: bool,
}

/// The answer to a timetable generation.
#[derive(Clone, Debug, Default)]
pub struct GenRes {
    pub ok: bool,
    pub warnings: Vec<String>,
}

} // verus!
