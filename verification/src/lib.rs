//! Analytics for a personal time-tracking and freelance-finance desk.
//!
//! Work sessions, goals and habits come in as plain records; the functions
//! here turn them into pay totals, weekly averages, streaks, a burnout risk,
//! a focus score, financial projections and unlocked achievements.
//!
//! Quantities are whole numbers throughout: durations in minutes, money in
//! cents, scores in hundredths of a point. A division rounds toward zero
//! unless a function says otherwise.

pub mod text;
pub mod math;
pub mod date;
pub mod models;
pub mod timeline;
pub mod days;
pub mod burnout;
pub mod analytics;
pub mod streaks;
pub mod simulator;
pub mod focus;
pub mod advisor;
pub mod achievements;
pub mod balance;
pub mod license;
pub mod invoice;
pub mod habits;
pub mod assistant;
