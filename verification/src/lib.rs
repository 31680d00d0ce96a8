//! Deterministic horoscope content and the model availability controller
//! of the Veil desktop application.

pub mod almanac;
pub mod backends;
pub mod calendar;
pub mod commands;
pub mod dashboard;
pub mod loader;
pub mod model_files;
pub mod model_manager;
pub mod seeded;
pub mod stream;
pub mod stub;
pub mod stub_dashboard;
pub mod subject;
pub mod text;
pub mod types;
