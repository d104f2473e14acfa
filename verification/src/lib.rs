//! Strategies for reading a CSV dataset and previewing its first rows.

pub mod engine;
pub mod failure;
pub mod preview;
pub mod report;
pub mod run;
pub mod strategy;
