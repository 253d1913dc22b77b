//! A crawler for second-hand listings: it builds the search URLs of the
//! marketplaces it watches, turns their result pages into listings, decides
//! what a pub-sub job asks for, and plans a collection run step by step.

pub mod api;
pub mod collector;
pub mod crawler;
pub mod crawlers;
pub mod html;
pub mod message;
pub mod pubsub;
pub mod rare_finder;
pub mod text;
