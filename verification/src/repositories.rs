//! What the service keeps between requests.

pub mod city_repository;
