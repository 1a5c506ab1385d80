//! What each button does on each screen, and what the outside answers.

pub mod files;
pub mod flashpoint;
pub mod games;
pub mod settings;
pub mod touches;
pub mod urls;
