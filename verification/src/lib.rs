//! Request handling, formatting and job-control logic of the Dejavu similarity API.

pub mod clock;
pub mod detection;
pub mod errors;
pub mod export;
pub mod health;
pub mod job;
pub mod noise_removal;
pub mod similarity;
pub mod text;
pub mod transcription;
