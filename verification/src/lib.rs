//! The decisions behind a self-hosted media tracker's miscellaneous requests:
//! reviews, collections, seen history, summaries, import jobs, accounts, sessions,
//! custom media and exports.
//!
//! Nothing in this crate touches a database or a network. An operation is a value
//! that names the one piece of outside work it is waiting for; the caller performs
//! that work and hands the answer back, until the operation is done.

pub mod clock;
pub mod collections;
pub mod config;
pub mod custom_media;
pub mod decimal;
pub mod error;
pub mod export;
pub mod graphql;
pub mod history;
pub mod imports;
pub mod media;
pub mod metadata;
pub mod password;
pub mod reviews;
pub mod service;
pub mod session_cookie;
pub mod sessions;
pub mod step;
pub mod store;
pub mod summaries;
pub mod summary;
pub mod summary_laws;
pub mod totals;
pub mod unique_id;
pub mod users;
