//! Helpers shared by the services.

pub mod text;
pub mod validators;
