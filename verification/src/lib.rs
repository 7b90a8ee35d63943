//! Ride-safety assessment: advisories and a score from a weather observation,
//! and the cache-aside protocol that keeps assessments by spatial bucket.

pub mod cache;
pub mod config;
pub mod handlers;
pub mod models;
pub mod reading;
pub mod weather;
