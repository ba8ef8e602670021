//! The JSON interface of the service.

pub mod weather;
