//! What each page of the service answers.

pub mod pages;
pub mod stats;
pub mod weather;
