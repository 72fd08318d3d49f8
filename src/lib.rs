//! A user-registration core: input validation, a store that keeps every
//! user's id, email and username unique, and two encodings of the outcome of
//! a create request (a status with structured details, and an in-band
//! success/error envelope).

pub mod laws;
pub mod repository;
pub mod service;
pub mod user;
