//! Recurring billing for a subscription product, together with the timetable
//! models of the surrounding application.
//!
//! Times are Unix timestamps in milliseconds; amounts are integers in the
//! smallest currency unit.
pub mod clock;
pub mod text;
pub mod plan;
pub mod subscription;
pub mod payment;
pub mod gateway;
pub mod webhook;
pub mod scheduler;
pub mod api;
pub mod laws;
pub mod slot;
pub mod column;
pub mod schedule;
pub mod prompt;
pub mod records;
pub mod rate;
pub mod selection;

pub use clock::{MS_PER_DAY, MAX_TIMESTAMP_MS, MAX_PLAN_DAYS};
