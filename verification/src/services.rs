//! The upstream services that the weather pages draw on.

pub mod weather_service;
