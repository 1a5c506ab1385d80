//! The launcher core: screens, input handling, catalogue rules and text formats.

pub mod base64;
pub mod digits;
pub mod json;
pub mod laws;
pub mod library;
pub mod loc;
pub mod menu;
pub mod net;
pub mod panel;
pub mod parts;
pub mod playtime;
pub mod profiles;
pub mod text;
