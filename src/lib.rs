//! Typed client core for the Spotify Web API: identifier normalization,
//! request preparation with method-specific payload placement, and
//! classification of failed responses into a structured error taxonomy.
pub mod client;
pub mod error;
pub mod ids;
pub mod request;
pub mod senum;
