//! A token bucket: a rate limiter whose tokens accrue continuously at a fixed
//! rate, up to a capacity, and are withdrawn either at once or against a
//! bounded wait.
//!
//! All times are whole milliseconds. [`model::BucketState`] is the
//! mathematical bucket and says what every operation does; [`Bucket`] is the
//! executable one, proved to follow it.

pub mod model;
pub mod clock;
pub mod bucket;
pub mod laws;

pub use bucket::Bucket;
