//! Typed, validated records for current-weather lookups, the requests that
//! fetch them, and the text they render to.

pub mod bridge;
pub mod decimal;
pub mod exchange;
pub mod location;
pub mod text;
pub mod weather;
