//! The first crawler: one search address, filled in from a template.

pub mod buyee;
