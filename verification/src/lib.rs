//! The rules of a small weather service: which requests it sends, how it
//! reads what comes back, and what it answers.
//!
//! Nothing here touches a socket or a database. A request is answered step
//! by step: the caller tells what has happened so far, and is told what to
//! do next (ask a service, ask the store, render a page, send the answer).
//! The caller does the asking; every decision is taken here.

pub mod api;
pub mod binary64;
pub mod errors;
pub mod handlers;
pub mod query;
pub mod repositories;
pub mod services;
pub mod status;
pub mod text;
