//! A grading pipeline for student programming assignments: staging of
//! submissions, the build-and-run harness, collection of grading records,
//! submission to a grading backend and publication of the verdicts.

pub mod error;
pub mod names;
pub mod staging;
pub mod json;
pub mod collector;
pub mod harness;
pub mod gateway;
pub mod tracker;
pub mod publisher;
pub mod orchestrator;
pub mod repos;
