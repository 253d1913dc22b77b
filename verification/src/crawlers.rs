//! The crawlers of the marketplaces.

pub mod buyee;
pub mod crawler;
