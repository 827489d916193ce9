//! Refinement of the records of a school-information service into a stable
//! schema, and the grouping of lessons and grades.

pub mod calendar;
pub mod config;
pub mod error;
pub mod grades;
pub mod query;
pub mod requests;
pub mod resources;
pub mod schedule;
pub mod sequences;
pub mod text;
